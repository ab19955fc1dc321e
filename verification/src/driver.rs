//! The device drivers of a board and the order in which they are brought up.
//!
//! The order is fixed per board. Dependencies between drivers are expressed
//! by it alone: a driver may rely on every driver in front of it being live.
//! Programming a device is not done here. The registry decides which driver
//! is due, takes the outcome of its initialization, and stops for good at
//! the first failure.

use vstd::prelude::*;
use crate::memory_map::{region_base, spec_region_base, BoardProfile, MmioRegion};

verus! {

/// The kinds of device driver that a board carries.
#[derive(Clone, Copy, PartialEq, Eq, Debug, Structural)]
pub enum DriverKind {
    /// The GPIO controller, which also multiplexes the pins.
    Gpio,
    /// The PL011 UART.
    Pl011Uart,
}

/// Number of drivers of a board.
pub const NUM_DRIVERS: usize = 2;

/// The compatibility name of a kind of driver.
pub open spec fn spec_compatible(kind: DriverKind) -> Seq<char> {
    match kind {
        DriverKind::Gpio => "GPIO"@,
        DriverKind::Pl011Uart => "PL011Uart"@,
    }
}

/// The device block that a kind of driver programs.
pub open spec fn spec_region(kind: DriverKind) -> MmioRegion {
    match kind {
        DriverKind::Gpio => MmioRegion::Gpio,
        DriverKind::Pl011Uart => MmioRegion::Pl011Uart,
    }
}

impl DriverKind {
    /// The compatibility name of the driver.
    pub fn compatible(self) -> (name: &'static str)
        ensures
            name@ == spec_compatible(self),
    {
        match self {
            DriverKind::Gpio => "GPIO",
            DriverKind::Pl011Uart => "PL011Uart",
        }
    }

    /// The device block that the driver programs.
    pub fn region(self) -> (region: MmioRegion)
        ensures
            region == spec_region(self),
    {
        match self {
            DriverKind::Gpio => MmioRegion::Gpio,
            DriverKind::Pl011Uart => MmioRegion::Pl011Uart,
        }
    }
}

/// The two kinds of driver have different compatibility names, so a name
/// identifies the driver.
pub proof fn lemma_compatible_injective(a: DriverKind, b: DriverKind)
    requires
        spec_compatible(a) == spec_compatible(b),
    ensures
        a == b,
{
    reveal_strlit("GPIO");
    reveal_strlit("PL011Uart");
    assert("GPIO"@.len() != "PL011Uart"@.len());
}

/// A handle to one device driver: what it is and where its registers are.
#[derive(Clone, Copy, PartialEq, Eq, Debug, Structural)]
pub struct DeviceDriverHandle {
    pub kind: DriverKind,
    /// First address of the driver's register block.
    pub mmio_base: u64,
}

impl DeviceDriverHandle {
    /// The compatibility name of the driver.
    pub fn compatible(&self) -> (name: &'static str)
        ensures
            name@ == spec_compatible(self.kind),
    {
        self.kind.compatible()
    }
}

/// The handle of the driver of kind `kind` on `profile`.
pub open spec fn spec_handle(profile: BoardProfile, kind: DriverKind) -> DeviceDriverHandle {
    DeviceDriverHandle {
        kind,
        mmio_base: spec_region_base(profile, spec_region(kind)) as u64,
    }
}

/// The drivers of `profile` in the order of their initialization: the GPIO
/// controller comes first, because the UART's signals run through its pins.
pub open spec fn spec_driver_order(profile: BoardProfile) -> Seq<DeviceDriverHandle> {
    seq![
        spec_handle(profile, DriverKind::Gpio),
        spec_handle(profile, DriverKind::Pl011Uart),
    ]
}

/// What the initialization of one driver reports.
#[derive(Clone, Copy, PartialEq, Eq, Debug, Structural)]
pub enum InitOutcome {
    /// The device is programmed and the driver is live.
    Live,
    /// The device could not be brought up.
    Failed,
}

/// A failure to bring the drivers up.
#[derive(Clone, Copy, PartialEq, Eq, Debug, Structural)]
pub enum InitError {
    /// The initialization of `driver` failed.
    DriverFailed { driver: DriverKind },
}

impl InitError {
    /// The driver that failed.
    pub fn driver(&self) -> (driver: DriverKind)
        ensures
            *self == (InitError::DriverFailed { driver }),
    {
        match self {
            InitError::DriverFailed { driver } => *driver,
        }
    }

    /// The compatibility name of the driver that failed.
    pub fn driver_name(&self) -> (name: &'static str)
        ensures
            name@ == spec_compatible(self->driver),
    {
        self.driver().compatible()
    }
}

/// How far the bring-up of the drivers has come.
#[derive(Clone, Copy, PartialEq, Eq, Debug, Structural)]
pub enum Stage {
    /// The first `next` drivers of the order are live and the driver at
    /// position `next` is due.
    Initializing { next: usize },
    /// Every driver is live. The configuration across drivers is still to
    /// be made.
    DriversLive,
    /// Every driver is live and the configuration across drivers is made.
    Ready,
    /// The initialization of the driver at position `index` failed. The
    /// drivers behind it were never touched, and none will be.
    Failed { index: usize },
}

/// The stage that follows `Initializing { next }` once the driver at
/// position `next` has reported `outcome`.
pub open spec fn stage_after(next: usize, outcome: InitOutcome) -> Stage {
    match outcome {
        InitOutcome::Live => if next + 1 < NUM_DRIVERS {
            Stage::Initializing { next: (next + 1) as usize }
        } else {
            Stage::DriversLive
        },
        InitOutcome::Failed => Stage::Failed { index: next },
    }
}

/// Whether `init` may have returned success for each of the drivers at the
/// positions from `from` up to, not including, `to`.
pub open spec fn succeeded_between<F: Fn(DeviceDriverHandle) -> InitOutcome>(
    init: F,
    drivers: Seq<DeviceDriverHandle>,
    from: int,
    to: int,
) -> bool {
    forall|i: int|
        from <= i < to ==> call_ensures(init, (#[trigger] drivers[i],), InitOutcome::Live)
}

/// Whether `init` may be called on each of `drivers`.
pub open spec fn accepts_all<F: Fn(DeviceDriverHandle) -> InitOutcome>(
    init: F,
    drivers: Seq<DeviceDriverHandle>,
) -> bool {
    forall|i: int| 0 <= i < drivers.len() ==> call_requires(init, (#[trigger] drivers[i],))
}

/// What a run of [`DriverRegistry::init_all`] with `init` makes of the stage
/// `before`: the stage `after` and the `result`.
///
/// From `Initializing { next }` it either reaches `DriversLive`, every
/// driver from position `next` on having reported success, or it reaches
/// `Failed { index }`, the driver at `index` having reported failure and
/// those from `next` up to it success. The error names the driver at
/// `index`. From any other stage nothing changes, and the result is the
/// error of the failed driver, or success.
pub open spec fn brought_up<F: Fn(DeviceDriverHandle) -> InitOutcome>(
    init: F,
    drivers: Seq<DeviceDriverHandle>,
    before: Stage,
    after: Stage,
    result: Result<(), InitError>,
) -> bool {
    match before {
        Stage::Initializing { next } => match result {
            Ok(()) => {
                &&& after == Stage::DriversLive
                &&& succeeded_between(init, drivers, next as int, NUM_DRIVERS as int)
            },
            Err(e) => exists|k: int|
                {
                    &&& next <= k < NUM_DRIVERS
                    &&& after == (Stage::Failed { index: k as usize })
                    &&& e == (InitError::DriverFailed { driver: drivers[k].kind })
                    &&& succeeded_between(init, drivers, next as int, k)
                    &&& call_ensures(init, (#[trigger] drivers[k],), InitOutcome::Failed)
                },
        },
        Stage::Failed { index } => {
            &&& after == before
            &&& result == Err::<(), InitError>(
                InitError::DriverFailed { driver: drivers[index as int].kind },
            )
        },
        _ => after == before && result is Ok,
    }
}

/// The drivers of a board, in their order, and the stage of their bring-up.
#[derive(Debug)]
pub struct DriverRegistry {
    profile: BoardProfile,
    drivers: [DeviceDriverHandle; NUM_DRIVERS],
    stage: Stage,
}

impl DriverRegistry {
    #[verifier::type_invariant]
    spec fn inv(&self) -> bool {
        &&& self.drivers@ == spec_driver_order(self.profile)
        &&& self.stage matches Stage::Initializing { next } ==> next < NUM_DRIVERS
        &&& self.stage matches Stage::Failed { index } ==> index < NUM_DRIVERS
    }

    /// The board whose drivers these are.
    pub closed spec fn spec_profile(&self) -> BoardProfile {
        self.profile
    }

    /// The stage of the bring-up.
    pub closed spec fn spec_stage(&self) -> Stage {
        self.stage
    }

    /// The drivers, in the order of their initialization.
    pub open spec fn spec_drivers(&self) -> Seq<DeviceDriverHandle> {
        spec_driver_order(self.spec_profile())
    }

    /// The registry of `profile`, with no driver touched yet.
    pub fn new(profile: BoardProfile) -> (registry: Self)
        ensures
            registry.spec_profile() == profile,
            registry.spec_stage() == (Stage::Initializing { next: 0 }),
    {
        let gpio = DeviceDriverHandle {
            kind: DriverKind::Gpio,
            mmio_base: region_base(profile, MmioRegion::Gpio),
        };
        let uart = DeviceDriverHandle {
            kind: DriverKind::Pl011Uart,
            mmio_base: region_base(profile, MmioRegion::Pl011Uart),
        };
        let drivers = [gpio, uart];
        assert(drivers@ =~= spec_driver_order(profile));
        DriverRegistry { profile, drivers, stage: Stage::Initializing { next: 0 } }
    }

    /// The board whose drivers these are.
    pub fn profile(&self) -> (profile: BoardProfile)
        ensures
            profile == self.spec_profile(),
    {
        self.profile
    }

    /// The drivers, in the order of their initialization. The order depends
    /// on the board alone, not on the stage.
    pub fn drivers(&self) -> (drivers: [DeviceDriverHandle; NUM_DRIVERS])
        ensures
            drivers@ == spec_driver_order(self.spec_profile()),
    {
        proof {
            use_type_invariant(self);
        }
        self.drivers
    }

    /// The stage of the bring-up.
    pub fn stage(&self) -> (stage: Stage)
        ensures
            stage == self.spec_stage(),
            stage matches Stage::Initializing { next } ==> next < NUM_DRIVERS,
            stage matches Stage::Failed { index } ==> index < NUM_DRIVERS,
    {
        proof {
            use_type_invariant(self);
        }
        self.stage
    }

    /// The driver that is due, if the bring-up is still under way.
    pub fn pending(&self) -> (due: Option<DeviceDriverHandle>)
        ensures
            due == match self.spec_stage() {
                Stage::Initializing { next } => Some(self.spec_drivers()[next as int]),
                _ => None,
            },
    {
        proof {
            use_type_invariant(self);
        }
        match self.stage {
            Stage::Initializing { next } => Some(self.drivers[next]),
            _ => None,
        }
    }

    /// The failure that stopped the bring-up, if one did.
    pub fn failure(&self) -> (failure: Option<InitError>)
        ensures
            failure == match self.spec_stage() {
                Stage::Failed { index } => Some(
                    InitError::DriverFailed { driver: self.spec_drivers()[index as int].kind },
                ),
                _ => None,
            },
    {
        proof {
            use_type_invariant(self);
        }
        match self.stage {
            Stage::Failed { index } => Some(
                InitError::DriverFailed { driver: self.drivers[index].kind },
            ),
            _ => None,
        }
    }

    /// Takes the outcome of the initialization of the driver that is due.
    /// On success the next driver becomes due, or, after the last one, all
    /// drivers are live. On failure the bring-up stops and the error names
    /// the driver.
    pub fn record_init(&mut self, outcome: InitOutcome) -> (result: Result<(), InitError>)
        requires
            old(self).spec_stage() is Initializing,
        ensures
            final(self).spec_profile() == old(self).spec_profile(),
            final(self).spec_stage() == stage_after(old(self).spec_stage()->next, outcome),
            result == match outcome {
                InitOutcome::Live => Ok::<(), InitError>(()),
                InitOutcome::Failed => Err(
                    InitError::DriverFailed {
                        driver: old(self).spec_drivers()[old(self).spec_stage()->next as int].kind,
                    },
                ),
            },
    {
        proof {
            use_type_invariant(&*self);
        }
        match self.stage {
            Stage::Initializing { next } => {
                match outcome {
                    InitOutcome::Live => {
                        if next + 1 < NUM_DRIVERS {
                            self.stage = Stage::Initializing { next: next + 1 };
                        } else {
                            self.stage = Stage::DriversLive;
                        }
                        Ok(())
                    },
                    InitOutcome::Failed => {
                        self.stage = Stage::Failed { index: next };
                        Err(InitError::DriverFailed { driver: self.drivers[next].kind })
                    },
                }
            },
            _ => Ok(()),
        }
    }

    /// Brings the drivers up: calls `init` on each driver that is still to
    /// be initialized, strictly in order, and stops at the first that
    /// fails. The drivers behind a failed one are not touched.
    ///
    /// On a registry whose bring-up is over nothing is called: the result
    /// tells again how it ended.
    pub fn init_all<F: Fn(DeviceDriverHandle) -> InitOutcome>(&mut self, init: F) -> (result:
        Result<(), InitError>)
        requires
            accepts_all(init, old(self).spec_drivers()),
        ensures
            final(self).spec_profile() == old(self).spec_profile(),
            brought_up(
                init,
                old(self).spec_drivers(),
                old(self).spec_stage(),
                final(self).spec_stage(),
                result,
            ),
    {
        proof {
            use_type_invariant(&*self);
        }
        let ghost drivers = self.spec_drivers();
        let ghost start = self.spec_stage();
        loop
            invariant
                accepts_all(init, drivers),
                self.spec_profile() == old(self).spec_profile(),
                drivers == old(self).spec_drivers(),
                start == old(self).spec_stage(),
                start matches Stage::Initializing { next } ==> {
                    &&& self.spec_stage() matches Stage::Initializing { next: now } ==> next
                        <= now && succeeded_between(init, drivers, next as int, now as int)
                    &&& self.spec_stage() == Stage::DriversLive ==> succeeded_between(
                        init,
                        drivers,
                        next as int,
                        NUM_DRIVERS as int,
                    )
                    &&& self.spec_stage() is Initializing || self.spec_stage()
                        == Stage::DriversLive
                },
                !(start is Initializing) ==> self.spec_stage() == start,
            decreases
                    match self.spec_stage() {
                        Stage::Initializing { next } => NUM_DRIVERS - next,
                        _ => 0,
                    },
        {
            proof {
                use_type_invariant(&*self);
            }
            match self.pending() {
                Some(handle) => {
                    let ghost at: int = self.spec_stage()->next as int;
                    assert(handle == drivers[at]);
                    let outcome = init(handle);
                    match self.record_init(outcome) {
                        Ok(()) => {},
                        Err(e) => {
                            return Err(e);
                        },
                    }
                },
                None => {
                    return match self.failure() {
                        Some(e) => Err(e),
                        None => Ok(()),
                    };
                },
            }
        }
    }

    /// Makes the configuration that needs more than one driver live: the
    /// UART's signals are routed through the pins of the GPIO controller.
    /// It is made once, after every driver has been initialized.
    pub fn post_driver_init(&mut self)
        requires
            old(self).spec_stage() == Stage::DriversLive,
        ensures
            final(self).spec_profile() == old(self).spec_profile(),
            final(self).spec_stage() == Stage::Ready,
    {
        proof {
            use_type_invariant(&*self);
        }
        self.stage = Stage::Ready;
    }
}

} // verus!
