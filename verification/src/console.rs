//! The consoles of a board.
//!
//! The normal [`Console`] is long-lived and shared: it holds a lock and
//! buffers what is written until the transmitter takes it. The
//! [`PanicConsole`] is made afresh when a fault is to be reported. It
//! speaks through the same UART, but has no lock and no buffer, and shares
//! no state with the normal console: a write to it completes whatever state
//! the normal console was left in.
//!
//! Neither touches the hardware. What is written comes out as bytes for the
//! transmitter, and what the receiver got is handed in.

use vstd::prelude::*;
use vstd::string::*;

verus! {

/// The counters of a console.
#[derive(Clone, Copy, PartialEq, Eq, Debug, Structural)]
pub struct ConsoleStatistics {
    /// Characters written so far. The count stops at `u64::MAX`.
    pub chars_written: u64,
    /// Characters read so far. The count stops at `u64::MAX`.
    pub chars_read: u64,
}

/// Why the normal console could not serve a request at once.
#[derive(Clone, Copy, PartialEq, Eq, Debug, Structural)]
pub enum ConsoleError {
    /// The console's lock is held.
    LockHeld,
    /// No character has been received.
    NoInput,
}

/// `count` raised by `by`, stopping at `u64::MAX`.
pub open spec fn counted(count: u64, by: nat) -> u64 {
    if count + by > u64::MAX {
        u64::MAX
    } else {
        (count + by) as u64
    }
}

fn count_up(count: u64, by: usize) -> (sum: u64)
    ensures
        sum == counted(count, by as nat),
{
    let by: u64 = by as u64;
    if by > u64::MAX - count {
        u64::MAX
    } else {
        count + by
    }
}

/// What a normal console holds.
pub struct ConsoleState {
    /// Whether the lock is held.
    pub lock_held: bool,
    /// The bytes written and not yet taken by the transmitter, oldest first.
    pub pending: Seq<u8>,
    /// The characters received and not yet read, oldest first.
    pub input: Seq<char>,
    pub statistics: ConsoleStatistics,
}

/// The normal console of a board.
#[derive(Debug)]
pub struct Console {
    lock_held: bool,
    pending: Vec<u8>,
    input: Vec<char>,
    statistics: ConsoleStatistics,
}

impl View for Console {
    type V = ConsoleState;

    closed spec fn view(&self) -> ConsoleState {
        ConsoleState {
            lock_held: self.lock_held,
            pending: self.pending@,
            input: self.input@,
            statistics: self.statistics,
        }
    }
}

impl Console {
    /// A console that is unlocked, with nothing buffered and all counters
    /// at zero.
    pub fn new() -> (console: Self)
        ensures
            console@ == (ConsoleState {
                lock_held: false,
                pending: Seq::empty(),
                input: Seq::empty(),
                statistics: ConsoleStatistics { chars_written: 0, chars_read: 0 },
            }),
    {
        Console {
            lock_held: false,
            pending: Vec::new(),
            input: Vec::new(),
            statistics: ConsoleStatistics { chars_written: 0, chars_read: 0 },
        }
    }

    /// Whether the lock is held.
    pub fn is_locked(&self) -> (held: bool)
        ensures
            held == self@.lock_held,
    {
        self.lock_held
    }

    /// The counters.
    pub fn statistics(&self) -> (statistics: ConsoleStatistics)
        ensures
            statistics == self@.statistics,
    {
        self.statistics
    }

    /// Number of bytes written and not yet taken by the transmitter.
    pub fn pending_len(&self) -> (len: usize)
        ensures
            len == self@.pending.len(),
    {
        self.pending.len()
    }

    /// Takes the lock, if it is free. Nothing else changes.
    pub fn acquire(&mut self) -> (result: Result<(), ConsoleError>)
        ensures
            result == (if old(self)@.lock_held {
                Err::<(), ConsoleError>(ConsoleError::LockHeld)
            } else {
                Ok::<(), ConsoleError>(())
            }),
            final(self)@ == (ConsoleState { lock_held: true, ..old(self)@ }),
    {
        if self.lock_held {
            Err(ConsoleError::LockHeld)
        } else {
            self.lock_held = true;
            Ok(())
        }
    }

    /// Gives the lock back. Nothing else changes.
    pub fn release(&mut self)
        ensures
            final(self)@ == (ConsoleState { lock_held: false, ..old(self)@ }),
    {
        self.lock_held = false;
    }

    /// Writes `text`: its bytes are appended to what is pending and its
    /// characters are counted. While the lock is held the console cannot be
    /// written to, and nothing changes.
    pub fn write(&mut self, text: &str) -> (result: Result<(), ConsoleError>)
        ensures
            old(self)@.lock_held ==> result == Err::<(), ConsoleError>(ConsoleError::LockHeld)
                && final(self)@ == old(self)@,
            !old(self)@.lock_held ==> result is Ok && final(self)@ == (ConsoleState {
                pending: old(self)@.pending + text.spec_bytes(),
                statistics: ConsoleStatistics {
                    chars_written: counted(old(self)@.statistics.chars_written, text@.len()),
                    ..old(self)@.statistics
                },
                ..old(self)@
            }),
    {
        if self.lock_held {
            return Err(ConsoleError::LockHeld);
        }
        let ghost before = self.pending@;
        self.pending.extend_from_slice(text.as_bytes());
        assert(self.pending@ =~= before + text.spec_bytes());
        self.statistics.chars_written = count_up(
            self.statistics.chars_written,
            text.unicode_len(),
        );
        Ok(())
    }

    /// Hands in a character that the receiver got. It is queued behind
    /// those not yet read.
    pub fn receive(&mut self, c: char)
        ensures
            final(self)@ == (ConsoleState { input: old(self)@.input.push(c), ..old(self)@ }),
    {
        self.input.push(c);
    }

    /// Reads the oldest character received and counts it. While the lock is
    /// held, or when no character is waiting, nothing changes.
    pub fn read_char(&mut self) -> (result: Result<char, ConsoleError>)
        ensures
            old(self)@.lock_held ==> result == Err::<char, ConsoleError>(ConsoleError::LockHeld)
                && final(self)@ == old(self)@,
            !old(self)@.lock_held && old(self)@.input.len() == 0 ==> result == Err::<
                char,
                ConsoleError,
            >(ConsoleError::NoInput) && final(self)@ == old(self)@,
            !old(self)@.lock_held && old(self)@.input.len() > 0 ==> result == Ok::<
                char,
                ConsoleError,
            >(old(self)@.input[0]) && final(self)@ == (ConsoleState {
                input: old(self)@.input.drop_first(),
                statistics: ConsoleStatistics {
                    chars_read: counted(old(self)@.statistics.chars_read, 1),
                    ..old(self)@.statistics
                },
                ..old(self)@
            }),
    {
        if self.lock_held {
            return Err(ConsoleError::LockHeld);
        }
        if self.input.len() == 0 {
            return Err(ConsoleError::NoInput);
        }
        let ghost before = self.input@;
        let c = self.input.remove(0);
        assert(self.input@ =~= before.drop_first());
        self.statistics.chars_read = count_up(self.statistics.chars_read, 1);
        Ok(c)
    }

    /// Hands the pending bytes to the transmitter, oldest first, and leaves
    /// none pending. While the lock is held nothing is handed out and
    /// nothing changes.
    pub fn take_pending(&mut self) -> (result: Result<Vec<u8>, ConsoleError>)
        ensures
            old(self)@.lock_held ==> result is Err && result->Err_0 == ConsoleError::LockHeld
                && final(self)@ == old(self)@,
            !old(self)@.lock_held ==> result is Ok && result->Ok_0@ == old(self)@.pending
                && final(self)@ == (ConsoleState { pending: Seq::empty(), ..old(self)@ }),
    {
        if self.lock_held {
            return Err(ConsoleError::LockHeld);
        }
        let mut bytes: Vec<u8> = Vec::new();
        bytes.append(&mut self.pending);
        assert(bytes@ =~= old(self)@.pending);
        Ok(bytes)
    }
}

/// What a panic console holds.
pub struct PanicConsoleState {
    /// First address of the UART that the console is bound to.
    pub mmio_base: u64,
    /// Characters written so far. The count stops at `u64::MAX`.
    pub chars_written: u64,
}

/// A console for reporting a fault. It has no lock and no buffer.
#[derive(Debug)]
pub struct PanicConsole {
    mmio_base: u64,
    chars_written: u64,
}

impl View for PanicConsole {
    type V = PanicConsoleState;

    closed spec fn view(&self) -> PanicConsoleState {
        PanicConsoleState { mmio_base: self.mmio_base, chars_written: self.chars_written }
    }
}

impl PanicConsole {
    /// A fresh panic console bound to the UART at `mmio_base`.
    pub fn new(mmio_base: u64) -> (console: Self)
        ensures
            console@ == (PanicConsoleState { mmio_base, chars_written: 0 }),
    {
        PanicConsole { mmio_base, chars_written: 0 }
    }

    /// First address of the UART that the console is bound to.
    pub fn mmio_base(&self) -> (base: u64)
        ensures
            base == self@.mmio_base,
    {
        self.mmio_base
    }

    /// The counters. A panic console reads nothing.
    pub fn statistics(&self) -> (statistics: ConsoleStatistics)
        ensures
            statistics == (ConsoleStatistics {
                chars_written: self@.chars_written,
                chars_read: 0,
            }),
    {
        ConsoleStatistics { chars_written: self.chars_written, chars_read: 0 }
    }

    /// Writes `text`: returns its bytes, to be put on the wire at once, and
    /// counts its characters. The write always completes.
    pub fn write(&mut self, text: &str) -> (bytes: Vec<u8>)
        ensures
            bytes@ == text.spec_bytes(),
            final(self)@ == (PanicConsoleState {
                chars_written: counted(old(self)@.chars_written, text@.len()),
                ..old(self)@
            }),
    {
        self.chars_written = count_up(self.chars_written, text.unicode_len());
        text.as_bytes_vec()
    }
}

} // verus!
