use std::cell::RefCell;

use rpi_bsp::board::{device_drivers, post_driver_init, Board};
use rpi_bsp::driver::{
    DeviceDriverHandle, DriverKind, DriverRegistry, InitError, InitOutcome, Stage, NUM_DRIVERS,
};
use rpi_bsp::memory_map::{BoardProfile, MmioRegion};

fn kinds(drivers: &[DeviceDriverHandle]) -> Vec<DriverKind> {
    drivers.iter().map(|d| d.kind).collect()
}

#[test]
fn device_drivers_are_gpio_then_uart() {
    let board = Board::new(BoardProfile::Rpi3);
    let drivers = device_drivers(&board);
    assert_eq!(drivers.len(), NUM_DRIVERS);
    assert_eq!(
        drivers,
        [
            DeviceDriverHandle { kind: DriverKind::Gpio, mmio_base: 0x3F20_0000 },
            DeviceDriverHandle { kind: DriverKind::Pl011Uart, mmio_base: 0x3F20_1000 },
        ]
    );
}

#[test]
fn device_drivers_of_the_pi_4() {
    let board = Board::new(BoardProfile::Rpi4);
    assert_eq!(
        device_drivers(&board),
        [
            DeviceDriverHandle { kind: DriverKind::Gpio, mmio_base: 0xFE20_0000 },
            DeviceDriverHandle { kind: DriverKind::Pl011Uart, mmio_base: 0xFE20_1000 },
        ]
    );
}

#[test]
fn device_drivers_are_the_same_on_every_call() {
    let mut board = Board::new(BoardProfile::Rpi3);
    let first = device_drivers(&board);
    assert_eq!(device_drivers(&board), first);
    board.console_mut().write("boot").unwrap();
    assert_eq!(device_drivers(&board), first);
    board.init_all(|_| InitOutcome::Live).unwrap();
    assert_eq!(device_drivers(&board), first);
    post_driver_init(&mut board);
    assert_eq!(device_drivers(&board), first);
    assert_eq!(device_drivers(&Board::new(BoardProfile::Rpi3)), first);
}

#[test]
fn compatible_names() {
    assert_eq!(DriverKind::Gpio.compatible(), "GPIO");
    assert_eq!(DriverKind::Pl011Uart.compatible(), "PL011Uart");
    let board = Board::new(BoardProfile::Rpi3);
    let names: Vec<&str> = device_drivers(&board).iter().map(|d| d.compatible()).collect();
    assert_eq!(names, ["GPIO", "PL011Uart"]);
}

#[test]
fn init_all_calls_each_driver_once_in_order() {
    let calls = RefCell::new(Vec::new());
    let mut board = Board::new(BoardProfile::Rpi3);
    let result = board.init_all(|d| {
        calls.borrow_mut().push(d);
        InitOutcome::Live
    });
    assert_eq!(result, Ok(()));
    assert_eq!(calls.into_inner(), device_drivers(&board));
    assert_eq!(board.stage(), Stage::DriversLive);
}

#[test]
fn post_driver_init_follows_a_bring_up_that_succeeded() {
    let mut board = Board::new(BoardProfile::Rpi4);
    assert_eq!(board.stage(), Stage::Initializing { next: 0 });
    assert_eq!(board.init_all(|_| InitOutcome::Live), Ok(()));
    post_driver_init(&mut board);
    assert_eq!(board.stage(), Stage::Ready);
}

#[test]
fn uart_failure_is_attributed_to_the_uart_and_stops_the_bring_up() {
    let calls = RefCell::new(Vec::new());
    let hook_ran = RefCell::new(false);
    let mut board = Board::new(BoardProfile::Rpi3);
    assert_eq!(kinds(&device_drivers(&board)), [DriverKind::Gpio, DriverKind::Pl011Uart]);
    let result = board.init_all(|d| {
        calls.borrow_mut().push(d.kind);
        if d.kind == DriverKind::Pl011Uart {
            InitOutcome::Failed
        } else {
            InitOutcome::Live
        }
    });
    if result.is_ok() {
        post_driver_init(&mut board);
        *hook_ran.borrow_mut() = true;
    }
    let error = result.unwrap_err();
    assert_eq!(error, InitError::DriverFailed { driver: DriverKind::Pl011Uart });
    assert_eq!(error.driver(), DriverKind::Pl011Uart);
    assert_eq!(error.driver_name(), "PL011Uart");
    assert_eq!(calls.into_inner(), [DriverKind::Gpio, DriverKind::Pl011Uart]);
    assert!(!hook_ran.into_inner());
    assert_eq!(board.stage(), Stage::Failed { index: 1 });
}

#[test]
fn gpio_failure_leaves_the_uart_untouched() {
    let calls = RefCell::new(Vec::new());
    let mut board = Board::new(BoardProfile::Rpi3);
    let result = board.init_all(|d| {
        calls.borrow_mut().push(d.kind);
        InitOutcome::Failed
    });
    assert_eq!(result, Err(InitError::DriverFailed { driver: DriverKind::Gpio }));
    assert_eq!(calls.into_inner(), [DriverKind::Gpio]);
    assert_eq!(board.stage(), Stage::Failed { index: 0 });
}

#[test]
fn init_all_after_a_failure_calls_nothing_and_repeats_the_error() {
    let mut board = Board::new(BoardProfile::Rpi3);
    let first = board.init_all(|d| match d.kind {
        DriverKind::Gpio => InitOutcome::Live,
        DriverKind::Pl011Uart => InitOutcome::Failed,
    });
    let calls = RefCell::new(0);
    let second = board.init_all(|_| {
        *calls.borrow_mut() += 1;
        InitOutcome::Live
    });
    assert_eq!(second, first);
    assert_eq!(second, Err(InitError::DriverFailed { driver: DriverKind::Pl011Uart }));
    assert_eq!(calls.into_inner(), 0);
    assert_eq!(board.stage(), Stage::Failed { index: 1 });
}

#[test]
fn init_all_after_success_calls_nothing() {
    let mut board = Board::new(BoardProfile::Rpi3);
    board.init_all(|_| InitOutcome::Live).unwrap();
    let calls = RefCell::new(0);
    let again = board.init_all(|_| {
        *calls.borrow_mut() += 1;
        InitOutcome::Failed
    });
    assert_eq!(again, Ok(()));
    assert_eq!(calls.into_inner(), 0);
    assert_eq!(board.stage(), Stage::DriversLive);
    post_driver_init(&mut board);
    assert_eq!(board.init_all(|_| InitOutcome::Failed), Ok(()));
    assert_eq!(board.stage(), Stage::Ready);
}

#[test]
fn bring_up_does_not_touch_the_console() {
    let mut board = Board::new(BoardProfile::Rpi3);
    board.console_mut().write("early").unwrap();
    board.init_all(|_| InitOutcome::Live).unwrap();
    post_driver_init(&mut board);
    assert_eq!(board.console_mut().take_pending().unwrap(), b"early");
}

#[test]
fn registry_steps_through_the_drivers() {
    let mut registry = DriverRegistry::new(BoardProfile::Rpi3);
    assert_eq!(registry.profile(), BoardProfile::Rpi3);
    assert_eq!(registry.stage(), Stage::Initializing { next: 0 });
    assert_eq!(registry.pending(), Some(registry.drivers()[0]));
    assert_eq!(registry.failure(), None);

    assert_eq!(registry.record_init(InitOutcome::Live), Ok(()));
    assert_eq!(registry.stage(), Stage::Initializing { next: 1 });
    assert_eq!(registry.pending(), Some(registry.drivers()[1]));

    assert_eq!(registry.record_init(InitOutcome::Live), Ok(()));
    assert_eq!(registry.stage(), Stage::DriversLive);
    assert_eq!(registry.pending(), None);
    assert_eq!(registry.failure(), None);

    registry.post_driver_init();
    assert_eq!(registry.stage(), Stage::Ready);
    assert_eq!(registry.pending(), None);
}

#[test]
fn registry_stops_at_a_failure() {
    let mut registry = DriverRegistry::new(BoardProfile::Rpi4);
    assert_eq!(registry.record_init(InitOutcome::Live), Ok(()));
    assert_eq!(
        registry.record_init(InitOutcome::Failed),
        Err(InitError::DriverFailed { driver: DriverKind::Pl011Uart })
    );
    assert_eq!(registry.stage(), Stage::Failed { index: 1 });
    assert_eq!(registry.pending(), None);
    assert_eq!(
        registry.failure(),
        Some(InitError::DriverFailed { driver: DriverKind::Pl011Uart })
    );
}

#[test]
fn registry_init_all_resumes_where_the_bring_up_stands() {
    let mut registry = DriverRegistry::new(BoardProfile::Rpi3);
    registry.record_init(InitOutcome::Live).unwrap();
    let calls = RefCell::new(Vec::new());
    let result = registry.init_all(|d| {
        calls.borrow_mut().push(d.kind);
        InitOutcome::Live
    });
    assert_eq!(result, Ok(()));
    assert_eq!(calls.into_inner(), [DriverKind::Pl011Uart]);
    assert_eq!(registry.stage(), Stage::DriversLive);
}

#[test]
fn driver_kinds_program_their_own_blocks() {
    assert_eq!(DriverKind::Gpio.region(), MmioRegion::Gpio);
    assert_eq!(DriverKind::Pl011Uart.region(), MmioRegion::Pl011Uart);
}
