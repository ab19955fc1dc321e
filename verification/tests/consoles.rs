use rpi_bsp::board::{console, device_drivers, panic_console_out, Board};
use rpi_bsp::console::{Console, ConsoleError, ConsoleStatistics, PanicConsole};
use rpi_bsp::driver::DriverKind;
use rpi_bsp::memory_map::BoardProfile;

#[test]
fn new_console_is_unlocked_and_empty() {
    let board = Board::new(BoardProfile::Rpi3);
    let c = console(&board);
    assert!(!c.is_locked());
    assert_eq!(c.pending_len(), 0);
    assert_eq!(c.statistics(), ConsoleStatistics { chars_written: 0, chars_read: 0 });
}

#[test]
fn write_buffers_the_bytes_and_counts_the_characters() {
    let mut c = Console::new();
    assert_eq!(c.write("Hello"), Ok(()));
    assert_eq!(c.write(", world\n"), Ok(()));
    assert_eq!(c.pending_len(), 13);
    assert_eq!(c.statistics().chars_written, 13);
    assert_eq!(c.statistics().chars_read, 0);
    assert_eq!(c.take_pending().unwrap(), b"Hello, world\n");
}

#[test]
fn write_counts_characters_not_bytes() {
    let mut c = Console::new();
    c.write("né").unwrap();
    assert_eq!(c.statistics().chars_written, 2);
    assert_eq!(c.pending_len(), 3);
    assert_eq!(c.take_pending().unwrap(), [0x6E, 0xC3, 0xA9]);
}

#[test]
fn write_of_nothing_changes_nothing() {
    let mut c = Console::new();
    c.write("").unwrap();
    assert_eq!(c.pending_len(), 0);
    assert_eq!(c.statistics().chars_written, 0);
}

#[test]
fn take_pending_leaves_nothing_pending_and_keeps_the_count() {
    let mut c = Console::new();
    c.write("abc").unwrap();
    assert_eq!(c.take_pending().unwrap(), b"abc");
    assert_eq!(c.pending_len(), 0);
    assert_eq!(c.take_pending().unwrap(), b"");
    assert_eq!(c.statistics().chars_written, 3);
    c.write("d").unwrap();
    assert_eq!(c.take_pending().unwrap(), b"d");
    assert_eq!(c.statistics().chars_written, 4);
}

#[test]
fn acquire_takes_the_lock_once() {
    let mut c = Console::new();
    assert_eq!(c.acquire(), Ok(()));
    assert!(c.is_locked());
    assert_eq!(c.acquire(), Err(ConsoleError::LockHeld));
    assert!(c.is_locked());
    c.release();
    assert!(!c.is_locked());
    assert_eq!(c.acquire(), Ok(()));
}

#[test]
fn locked_console_serves_nothing_and_keeps_its_state() {
    let mut c = Console::new();
    c.write("kept").unwrap();
    c.receive('x');
    c.acquire().unwrap();
    assert_eq!(c.write("lost"), Err(ConsoleError::LockHeld));
    assert_eq!(c.read_char(), Err(ConsoleError::LockHeld));
    assert_eq!(c.take_pending(), Err(ConsoleError::LockHeld));
    assert_eq!(c.pending_len(), 4);
    assert_eq!(c.statistics(), ConsoleStatistics { chars_written: 4, chars_read: 0 });
    c.release();
    assert_eq!(c.read_char(), Ok('x'));
    assert_eq!(c.take_pending().unwrap(), b"kept");
}

#[test]
fn read_char_returns_characters_oldest_first() {
    let mut c = Console::new();
    assert_eq!(c.read_char(), Err(ConsoleError::NoInput));
    c.receive('o');
    c.receive('k');
    assert_eq!(c.read_char(), Ok('o'));
    assert_eq!(c.statistics().chars_read, 1);
    c.receive('!');
    assert_eq!(c.read_char(), Ok('k'));
    assert_eq!(c.read_char(), Ok('!'));
    assert_eq!(c.read_char(), Err(ConsoleError::NoInput));
    assert_eq!(c.statistics(), ConsoleStatistics { chars_written: 0, chars_read: 3 });
}

#[test]
fn panic_console_writes_while_the_normal_console_is_locked() {
    let mut board = Board::new(BoardProfile::Rpi3);
    board.console_mut().write("half a li").unwrap();
    board.console_mut().acquire().unwrap();
    assert_eq!(board.console_mut().write("ne"), Err(ConsoleError::LockHeld));

    let mut panic_console = panic_console_out(board.profile());
    assert_eq!(panic_console.write("kernel panic"), b"kernel panic");
    assert_eq!(panic_console.statistics().chars_written, 12);

    let normal = console(&board);
    assert!(normal.is_locked());
    assert_eq!(normal.pending_len(), 9);
    assert_eq!(normal.statistics().chars_written, 9);
}

#[test]
fn panic_console_is_fresh_on_every_call() {
    let mut first = panic_console_out(BoardProfile::Rpi4);
    first.write("first fault");
    let second = panic_console_out(BoardProfile::Rpi4);
    assert_eq!(first.statistics().chars_written, 11);
    assert_eq!(second.statistics(), ConsoleStatistics { chars_written: 0, chars_read: 0 });
}

#[test]
fn panic_console_speaks_through_the_uart_of_the_board() {
    for profile in [BoardProfile::Rpi3, BoardProfile::Rpi4] {
        let board = Board::new(profile);
        let uart = device_drivers(&board)
            .into_iter()
            .find(|d| d.kind == DriverKind::Pl011Uart)
            .unwrap();
        assert_eq!(panic_console_out(profile).mmio_base(), uart.mmio_base);
    }
    assert_eq!(panic_console_out(BoardProfile::Rpi3).mmio_base(), 0x3F20_1000);
    assert_eq!(panic_console_out(BoardProfile::Rpi4).mmio_base(), 0xFE20_1000);
}

#[test]
fn panic_console_counts_characters_and_returns_bytes() {
    let mut c = PanicConsole::new(0x3F20_1000);
    assert_eq!(c.write("né"), [0x6E, 0xC3, 0xA9]);
    assert_eq!(c.write(""), b"");
    assert_eq!(c.write("!"), b"!");
    assert_eq!(c.statistics(), ConsoleStatistics { chars_written: 3, chars_read: 0 });
}

#[test]
fn console_of_the_board_is_reached_through_both_accessors() {
    let mut board = Board::new(BoardProfile::Rpi3);
    board.console_mut().write("shared").unwrap();
    board.console_mut().receive('y');
    assert_eq!(console(&board).pending_len(), 6);
    assert_eq!(board.console_mut().read_char(), Ok('y'));
    assert_eq!(console(&board).statistics(), ConsoleStatistics { chars_written: 6, chars_read: 1 });
}
