use std::cell::{Cell, RefCell};
use std::collections::VecDeque;

use sfm::ack::{AckReader, AckStep, ACK_START, POLL_QUANTUM_MS};
use sfm::{build_command, get_check_sum, send_command, Ack, Delay, SfmError, SfmUart};

/// A scripted serial line: `incoming` is what the module has sent and not yet
/// been read, `written` is what was written to the module.
struct FakeUart {
    incoming: RefCell<VecDeque<u8>>,
    written: RefCell<Vec<u8>>,
    read_returns_nothing: bool,
    max_read: usize,
    fail_code: Option<i32>,
    polls: Cell<usize>,
    reads: Cell<usize>,
    read_flushes: Cell<usize>,
    write_flushes: Cell<usize>,
}

impl FakeUart {
    fn new(bytes: &[u8]) -> FakeUart {
        FakeUart {
            incoming: RefCell::new(bytes.iter().copied().collect()),
            written: RefCell::new(Vec::new()),
            read_returns_nothing: false,
            max_read: usize::MAX,
            fail_code: None,
            polls: Cell::new(0),
            reads: Cell::new(0),
            read_flushes: Cell::new(0),
            write_flushes: Cell::new(0),
        }
    }

    fn failing(code: i32) -> FakeUart {
        let mut f = FakeUart::new(&[]);
        f.fail_code = Some(code);
        f
    }

    fn fail(&self) -> Result<(), SfmError> {
        match self.fail_code {
            Some(code) => Err(SfmError::Esp(code)),
            None => Ok(()),
        }
    }
}

impl SfmUart for FakeUart {
    fn remaining_read(&self) -> Result<usize, SfmError> {
        self.fail()?;
        self.polls.set(self.polls.get() + 1);
        Ok(self.incoming.borrow().len())
    }

    fn flush_read(&self) -> Result<(), SfmError> {
        self.fail()?;
        self.read_flushes.set(self.read_flushes.get() + 1);
        self.incoming.borrow_mut().clear();
        Ok(())
    }

    fn flush_write(&self) -> Result<(), SfmError> {
        self.fail()?;
        self.write_flushes.set(self.write_flushes.get() + 1);
        Ok(())
    }

    fn read(&self, buf: &mut [u8], _timeout_ms: u32) -> Result<usize, SfmError> {
        self.fail()?;
        self.reads.set(self.reads.get() + 1);
        if self.read_returns_nothing {
            return Ok(0);
        }
        let mut incoming = self.incoming.borrow_mut();
        let mut n = 0;
        while n < buf.len() && n < self.max_read {
            match incoming.pop_front() {
                Some(b) => buf[n] = b,
                None => break,
            }
            n += 1;
        }
        Ok(n)
    }

    fn write(&self, buf: &[u8]) -> Result<usize, SfmError> {
        self.fail()?;
        self.written.borrow_mut().extend_from_slice(buf);
        Ok(buf.len())
    }
}

/// Counts the sleeps instead of sleeping.
struct FakeDelay {
    slept_ms: Cell<u32>,
    sleeps: Cell<usize>,
}

impl FakeDelay {
    fn new() -> FakeDelay {
        FakeDelay { slept_ms: Cell::new(0), sleeps: Cell::new(0) }
    }
}

impl Delay for FakeDelay {
    fn delay_ms(&self, ms: u32) {
        self.slept_ms.set(self.slept_ms.get() + ms);
        self.sleeps.set(self.sleeps.get() + 1);
    }
}

#[test]
fn checksum_is_xor_of_bytes_one_to_five() {
    assert_eq!(get_check_sum(&[0x00, 0x01, 0x02, 0x04, 0x08, 0x10, 0xFF, 0xFF]), 0x1F);
    assert_eq!(get_check_sum(&[0x00, 0x10, 0x03, 0x00, 0x00, 0x00, 0x00, 0x00]), 0x13);
    assert_eq!(get_check_sum(&[0xAA; 8]), 0xAA);
    assert_eq!(get_check_sum(&[0x00; 8]), 0x00);
}

#[test]
fn checksum_ignores_bytes_outside_one_to_five() {
    let a = [0x00, 0x12, 0x34, 0x56, 0x78, 0x9A, 0x00, 0x00];
    let b = [0xFF, 0x12, 0x34, 0x56, 0x78, 0x9A, 0x77, 0x55];
    assert_eq!(get_check_sum(&a), get_check_sum(&b));
    let c = [0x00, 0x13, 0x34, 0x56, 0x78, 0x9A, 0x00, 0x00];
    assert_ne!(get_check_sum(&a), get_check_sum(&c));
}

#[test]
fn checksum_ignores_order_within_one_to_five() {
    let a = [0x00, 0x12, 0x34, 0x56, 0x78, 0x9A, 0x00, 0x00];
    let b = [0x00, 0x9A, 0x78, 0x12, 0x56, 0x34, 0x00, 0x00];
    assert_eq!(get_check_sum(&a), get_check_sum(&b));
    assert_eq!(get_check_sum(&a), get_check_sum(&a));
}

#[test]
fn build_command_lays_out_frame() {
    let f = build_command(0xC3, [0x03, 0x00, 0x00]);
    assert_eq!(f, [0x00, 0xC3, 0x03, 0x00, 0x00, 0x00, 0xC0, 0x00]);
    let g = build_command(0x01, [0x02, 0x04, 0x08]);
    assert_eq!(g, [0x00, 0x01, 0x02, 0x04, 0x08, 0x00, 0x0F, 0x00]);
}

#[test]
fn build_command_round_trips_checksum() {
    for command in [0x00u8, 0x01, 0x2C, 0xC3, 0xFF] {
        for p in [[0u8, 0, 0], [1, 2, 3], [0xFF, 0x80, 0x7F]] {
            let f = build_command(command, p);
            assert_eq!(get_check_sum(&f), f[6]);
            assert_eq!(f[6], command ^ p[0] ^ p[1] ^ p[2]);
            assert_eq!((f[0], f[5], f[7]), (0, 0, 0));
        }
    }
}

#[test]
fn send_command_flushes_then_writes_frame() {
    let uart = FakeUart::new(&[]);
    assert_eq!(send_command(&uart, 0xC3, [0x03, 0x00, 0x00]), Ok(()));
    assert_eq!(uart.write_flushes.get(), 1);
    assert_eq!(*uart.written.borrow(), vec![0x00, 0xC3, 0x03, 0x00, 0x00, 0x00, 0xC0, 0x00]);
}

#[test]
fn send_command_passes_on_line_failure() {
    let uart = FakeUart::failing(-1);
    assert_eq!(send_command(&uart, 0xC3, [0x03, 0x00, 0x00]), Err(SfmError::Esp(-1)));
    assert!(uart.written.borrow().is_empty());
}

#[test]
fn read_ack_skips_leading_noise() {
    let uart = FakeUart::new(&[0x00, 0x00, 0xF5, 0x10, 0x03, 0x00, 0x00, 0x00, 0x13, 0x00]);
    let delay = FakeDelay::new();
    let ack = Ack::read(&uart, &delay, 5000);
    assert_eq!(ack, Ok(Ack { type_received: 0x10, q1: 3, q2: 0 }));
    assert_eq!(uart.read_flushes.get(), 0);
}

#[test]
fn read_ack_aligned_message() {
    let uart = FakeUart::new(&[0xF5, 0x2C, 0x00, 0x05, 0x00, 0x00, 0x29, 0xF5]);
    let delay = FakeDelay::new();
    let ack = Ack::read(&uart, &delay, 1000);
    assert_eq!(ack, Ok(Ack { type_received: 0x2C, q1: 0, q2: 5 }));
    assert_eq!(uart.reads.get(), 1);
    assert_eq!(delay.sleeps.get(), 0);
}

#[test]
fn read_ack_accepts_seven_byte_message() {
    let uart = FakeUart::new(&[0xF5, 0x10, 0x03, 0x00, 0x00, 0x00, 0x13]);
    let delay = FakeDelay::new();
    assert_eq!(Ack::read(&uart, &delay, 1000), Ok(Ack { type_received: 0x10, q1: 3, q2: 0 }));
}

#[test]
fn read_ack_checksum_mismatch() {
    let uart = FakeUart::new(&[0xF5, 0x10, 0x03, 0x00, 0x00, 0x00, 0x14, 0x00]);
    let delay = FakeDelay::new();
    assert_eq!(Ack::read(&uart, &delay, 1000), Err(SfmError::AckChecksumMismatch));
    assert_eq!(uart.read_flushes.get(), 1);
    assert!(uart.incoming.borrow().is_empty());
}

#[test]
fn read_ack_times_out_on_short_stream() {
    let uart = FakeUart::new(&[0x00, 0xF5, 0x10]);
    let delay = FakeDelay::new();
    assert_eq!(Ack::read(&uart, &delay, 1000), Err(SfmError::AckTimeout));
    assert_eq!(uart.polls.get(), 10);
    assert_eq!(delay.sleeps.get(), 10);
    assert_eq!(delay.slept_ms.get(), 1000);
    assert_eq!(uart.reads.get(), 0);
    assert_eq!(uart.read_flushes.get(), 1);
}

#[test]
fn read_ack_times_out_with_nothing_available() {
    let uart = FakeUart::new(&[]);
    let delay = FakeDelay::new();
    assert_eq!(Ack::read(&uart, &delay, 500), Err(SfmError::AckTimeout));
    assert_eq!(uart.reads.get(), 0);
    assert_eq!(uart.polls.get(), 5);
    assert_eq!(uart.read_flushes.get(), 1);
}

#[test]
fn read_ack_budget_not_a_multiple_of_quantum() {
    let uart = FakeUart::new(&[]);
    let delay = FakeDelay::new();
    assert_eq!(Ack::read(&uart, &delay, 150), Err(SfmError::AckTimeout));
    assert_eq!(uart.polls.get(), 2);
}

#[test]
fn read_ack_zero_budget_times_out_at_once() {
    let uart = FakeUart::new(&[0xF5, 0x10, 0x03, 0x00, 0x00, 0x00, 0x13, 0x00]);
    let delay = FakeDelay::new();
    assert_eq!(Ack::read(&uart, &delay, 0), Err(SfmError::AckTimeout));
    assert_eq!(uart.polls.get(), 0);
    assert_eq!(uart.read_flushes.get(), 1);
}

#[test]
fn read_ack_empty_read_is_timeout() {
    let mut uart = FakeUart::new(&[0xF5, 0x10, 0x03, 0x00, 0x00, 0x00, 0x13, 0x00]);
    uart.read_returns_nothing = true;
    let delay = FakeDelay::new();
    assert_eq!(Ack::read(&uart, &delay, 1000), Err(SfmError::AckTimeout));
    assert_eq!(uart.reads.get(), 1);
    assert_eq!(uart.read_flushes.get(), 1);
}

#[test]
fn read_ack_passes_on_line_failure() {
    let uart = FakeUart::failing(0x107);
    let delay = FakeDelay::new();
    assert_eq!(Ack::read(&uart, &delay, 1000), Err(SfmError::Esp(0x107)));
}

#[test]
fn reader_thresholds_and_budget() {
    let mut r = AckReader::new(250);
    assert!(!r.is_finished());
    assert!(!r.ready(6));
    assert!(r.ready(7));
    r.wait();
    assert_eq!(r.timeout_ms, 150);
    r.wait();
    r.wait();
    assert_eq!(r.timeout_ms, 0);
    assert!(r.is_finished());
    assert_eq!(POLL_QUANTUM_MS, 100);
    assert_eq!(ACK_START, 0xF5);
}

#[test]
fn reader_joins_message_split_across_chunks() {
    let mut r = AckReader::new(1000);
    let step = r.accept(&[0x00, 0x00, 0xF5, 0x10, 0x03, 0x00, 0x00, 0x00], 8);
    assert_eq!(step, AckStep::Pending);
    assert_eq!(r.message, vec![0xF5, 0x10, 0x03, 0x00, 0x00, 0x00]);
    assert!(r.started);
    assert_eq!(r.timeout_ms, 900);
    assert!(r.ready(1));
    assert!(!r.ready(0));
    let step = r.accept(&[0x13, 0x00, 0x00, 0x00, 0x00, 0x00, 0x00, 0x00], 2);
    assert_eq!(step, AckStep::Complete(Ack { type_received: 0x10, q1: 3, q2: 0 }));
    assert_eq!(r.message, vec![0xF5, 0x10, 0x03, 0x00, 0x00, 0x00, 0x13, 0x00]);
    assert_eq!(r.timeout_ms, 900);
}

#[test]
fn reader_discards_bytes_before_marker() {
    let mut r = AckReader::new(1000);
    let step = r.accept(&[0x01, 0x02, 0x03, 0x04, 0x05, 0x06, 0x07, 0x08], 8);
    assert_eq!(step, AckStep::Pending);
    assert!(r.message.is_empty());
    assert!(!r.started);
}

#[test]
fn reader_reports_checksum_mismatch() {
    let mut r = AckReader::new(1000);
    let step = r.accept(&[0xF5, 0x10, 0x03, 0x00, 0x00, 0x00, 0x00, 0x00], 8);
    assert_eq!(step, AckStep::ChecksumMismatch);
}

#[test]
fn error_variants_are_distinct() {
    assert_ne!(SfmError::AckTimeout, SfmError::AckMissingData);
    assert_ne!(SfmError::AckChecksumMismatch, SfmError::AckTimeout);
    assert_eq!(SfmError::Esp(3), SfmError::Esp(3));
}

#[test]
fn read_ack_short_read_after_noise_waits_for_checksum() {
    let uart = FakeUart::new(&[0x00, 0xF5, 0x10, 0x10, 0x00, 0x00, 0x00]);
    let delay = FakeDelay::new();
    assert_eq!(Ack::read(&uart, &delay, 1000), Err(SfmError::AckTimeout));
    assert_eq!(uart.reads.get(), 1);
    assert_eq!(uart.read_flushes.get(), 1);
}

#[test]
fn read_ack_short_read_then_checksum_byte() {
    let mut uart = FakeUart::new(&[0x00, 0xF5, 0x10, 0x03, 0x00, 0x00, 0x00, 0x13, 0x00]);
    uart.max_read = 7;
    let delay = FakeDelay::new();
    assert_eq!(Ack::read(&uart, &delay, 1000), Ok(Ack { type_received: 0x10, q1: 3, q2: 0 }));
    assert_eq!(uart.reads.get(), 2);
    assert_eq!(uart.read_flushes.get(), 0);
}

#[test]
fn reader_ignores_bytes_past_read_count() {
    let mut r = AckReader::new(1000);
    let step = r.accept(&[0x00, 0xF5, 0x10, 0x03, 0x00, 0x00, 0x00, 0xFF], 7);
    assert_eq!(step, AckStep::Pending);
    assert_eq!(r.message, vec![0xF5, 0x10, 0x03, 0x00, 0x00, 0x00]);
    let step = r.accept(&[0x13, 0x44, 0x44, 0x44, 0x44, 0x44, 0x44, 0x44], 1);
    assert_eq!(step, AckStep::Complete(Ack { type_received: 0x10, q1: 3, q2: 0 }));
    assert_eq!(r.message.len(), 7);
}

#[test]
fn reader_empty_read_is_timeout() {
    let mut r = AckReader::new(1000);
    let step = r.accept(&[0xF5, 0x10, 0x03, 0x00, 0x00, 0x00, 0x13, 0x00], 0);
    assert_eq!(step, AckStep::Timeout);
    assert!(r.message.is_empty());
    assert!(!r.started);
    assert_eq!(r.timeout_ms, 1000);
}
