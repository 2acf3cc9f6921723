use vstd::prelude::*;

use crate::command::{checksum_of, get_check_sum, CommandBuffer};
use crate::driver::{Delay, SfmUart};
use crate::error::SfmError;

verus! {

/// The byte that opens every acknowledgement message.
pub const ACK_START: u8 = 0xF5;

/// The step, in milliseconds, by which the time budget shrinks on each poll
/// that makes no progress.
pub const POLL_QUANTUM_MS: u32 = 100;

/// A decoded acknowledgement: its type code and two status/quantity bytes.
#[derive(Debug, Clone, Copy, PartialEq, Eq, Structural)]
pub struct Ack {
    pub type_received: u8,
    pub q1: u8,
    pub q2: u8,
}

/// The acknowledgement that an assembled message `m` carries.
pub open spec fn decode(m: Seq<u8>) -> Ack
    recommends
        m.len() >= 4,
{
    Ack { type_received: m[1], q1: m[2], q2: m[3] }
}

/// One byte of the stream taken into the message being assembled: bytes are
/// skipped until the start marker, which opens the message; from then on
/// every byte is kept, up to eight.
pub open spec fn scan_byte(message: Seq<u8>, started: bool, b: u8) -> (Seq<u8>, bool) {
    if message.len() >= 8 {
        (message, started)
    } else if started || b == ACK_START {
        (message.push(b), true)
    } else {
        (message, false)
    }
}

/// The bytes of `bytes`, in order, taken into the message being assembled.
pub open spec fn scan_bytes(message: Seq<u8>, started: bool, bytes: Seq<u8>) -> (Seq<u8>, bool)
    decreases bytes.len(),
{
    if bytes.len() == 0 {
        (message, started)
    } else {
        let p = scan_bytes(message, started, bytes.drop_last());
        scan_byte(p.0, p.1, bytes.last())
    }
}

/// The bytes of `chunk` that a read reporting `n` bytes filled: its first
/// `n`, or all of it where `n` is larger.
pub open spec fn bytes_read(chunk: Seq<u8>, n: usize) -> Seq<u8> {
    if n < chunk.len() {
        chunk.take(n as int)
    } else {
        chunk
    }
}

/// The time budget left after one more unproductive poll.
pub open spec fn budget_after_wait(timeout_ms: u32) -> u32 {
    if timeout_ms >= POLL_QUANTUM_MS {
        (timeout_ms - POLL_QUANTUM_MS) as u32
    } else {
        0
    }
}

/// Scanning `a` then `b` is scanning `a + b`: how the stream is cut into
/// reads does not change the message assembled.
pub proof fn lemma_scan_concat(message: Seq<u8>, started: bool, a: Seq<u8>, b: Seq<u8>)
    ensures
        scan_bytes(message, started, a + b) == ({
            let p = scan_bytes(message, started, a);
            scan_bytes(p.0, p.1, b)
        }),
    decreases b.len(),
{
    if b.len() > 0 {
        lemma_scan_concat(message, started, a, b.drop_last());
        assert((a + b).drop_last() =~= a + b.drop_last());
    } else {
        assert(a + b =~= a);
    }
}

proof fn lemma_scan_noise(noise: Seq<u8>)
    requires
        forall|i: int| 0 <= i < noise.len() ==> noise[i] != ACK_START,
    ensures
        scan_bytes(Seq::empty(), false, noise) == (Seq::<u8>::empty(), false),
    decreases noise.len(),
{
    if noise.len() > 0 {
        lemma_scan_noise(noise.drop_last());
    }
}

proof fn lemma_scan_message(m: Seq<u8>)
    requires
        1 <= m.len() <= 8,
        m[0] == ACK_START,
    ensures
        scan_bytes(Seq::empty(), false, m) == (m, true),
    decreases m.len(),
{
    if m.len() == 1 {
        assert(m.drop_last() =~= Seq::<u8>::empty());
        assert(scan_bytes(Seq::empty(), false, m.drop_last()) == (Seq::<u8>::empty(), false));
        assert(Seq::<u8>::empty().push(m[0]) =~= m);
    } else {
        lemma_scan_message(m.drop_last());
        assert(m.drop_last().push(m.last()) =~= m);
        assert(m.drop_last()[0] == ACK_START);
    }
}

/// Bytes before the start marker are dropped: a stream of noise without the
/// marker, then a message of up to eight bytes opening with the marker,
/// assembles into exactly that message, however the stream is cut into
/// reads.
pub proof fn lemma_noise_then_message(noise: Seq<u8>, m: Seq<u8>)
    requires
        forall|i: int| 0 <= i < noise.len() ==> noise[i] != ACK_START,
        1 <= m.len() <= 8,
        m[0] == ACK_START,
    ensures
        scan_bytes(Seq::empty(), false, noise + m) == (m, true),
{
    lemma_scan_concat(Seq::empty(), false, noise, m);
    lemma_scan_noise(noise);
    lemma_scan_message(m);
}

/// The time budget left after `k` unproductive polls, starting from `t`.
pub open spec fn budget_after_waits(t: u32, k: nat) -> u32
    decreases k,
{
    if k == 0 {
        t
    } else {
        budget_after_wait(budget_after_waits(t, (k - 1) as nat))
    }
}

/// After `k` unproductive polls a budget of `t` milliseconds has shrunk to
/// `t - 100 * k`, or to zero once that is spent; so it is spent exactly when
/// `100 * k >= t`, after `t / 100` polls rounded up.
pub proof fn lemma_budget_after_polls(t: u32, k: nat)
    ensures
        budget_after_waits(t, k) == if t >= POLL_QUANTUM_MS * k {
            (t - POLL_QUANTUM_MS * k) as u32
        } else {
            0u32
        },
        (budget_after_waits(t, k) == 0) <==> POLL_QUANTUM_MS * k >= t,
    decreases k,
{
    if k > 0 {
        lemma_budget_after_polls(t, (k - 1) as nat);
    }
}

/// The bytes available that the reader waits for before it reads: a whole
/// message but its marker while it hunts for the marker, one byte after.
pub open spec fn read_threshold(started: bool) -> usize {
    if started {
        1
    } else {
        7
    }
}

impl Ack {
    /// Reads one acknowledgement from `driver` within `timeout_ms`.
    ///
    /// Polls the line until enough bytes are buffered (seven while hunting
    /// for the start marker, one after), sleeping one poll quantum and
    /// spending it from the budget whenever it cannot make progress. Each
    /// chunk read goes through an `AckReader`, which takes only the bytes the
    /// read reported into the message and checks the checksum byte
    /// of the assembled message against that message's own bytes 1 through
    /// 5, however many reads it took to arrive. A read that returns nothing,
    /// or a budget spent, ends in `AckTimeout`; a bad checksum ends in
    /// `AckChecksumMismatch`; both flush the read buffer first. Failures of
    /// the line are passed on.
    pub fn read<U: SfmUart, D: Delay>(driver: &U, delay: &D, timeout_ms: u32) -> (r: Result<
        Ack,
        SfmError,
    >)
        ensures
            r is Err ==> (r->Err_0 is Esp || r->Err_0 is AckTimeout
                || r->Err_0 is AckChecksumMismatch),
            timeout_ms == 0 ==> (r == Err::<Ack, SfmError>(SfmError::AckTimeout)
                || r->Err_0 is Esp),
    {
        let mut reader = AckReader::new(timeout_ms);
        while !reader.is_finished()
            invariant
                reader.wf(),
                reader.message@.len() < 7,
                reader.timeout_ms <= timeout_ms,
            decreases reader.timeout_ms,
        {
            let available = match driver.remaining_read() {
                Ok(n) => n,
                Err(e) => {
                    return Err(e);
                },
            };
            if !reader.ready(available) {
                reader.wait();
                delay.delay_ms(POLL_QUANTUM_MS);
                continue;
            }
            let mut chunk: CommandBuffer = [0u8; 8];
            let n = match driver.read(&mut chunk, reader.timeout_ms) {
                Ok(n) => n,
                Err(e) => {
                    return Err(e);
                },
            };
            match reader.accept(&chunk, n) {
                AckStep::Pending => {
                    delay.delay_ms(POLL_QUANTUM_MS);
                },
                AckStep::Complete(ack) => {
                    return Ok(ack);
                },
                AckStep::Timeout => {
                    return match driver.flush_read() {
                        Ok(()) => Err(SfmError::AckTimeout),
                        Err(e) => Err(e),
                    };
                },
                AckStep::ChecksumMismatch => {
                    return match driver.flush_read() {
                        Ok(()) => Err(SfmError::AckChecksumMismatch),
                        Err(e) => Err(e),
                    };
                },
            }
        }
        match driver.flush_read() {
            Ok(()) => Err(SfmError::AckTimeout),
            Err(e) => Err(e),
        }
    }
}

/// What became of a chunk of bytes handed to the reader.
#[derive(Debug, Clone, Copy, PartialEq, Eq, Structural)]
pub enum AckStep {
    /// The message is not complete yet; the reader waits and polls again.
    Pending,
    /// The message is complete and its checksum holds.
    Complete(Ack),
    /// The message is complete but its checksum byte disagrees.
    ChecksumMismatch,
    /// The read returned no bytes: the line timed out.
    Timeout,
}

/// The state of one acknowledgement read: the time budget left, the message
/// assembled so far, and whether the start marker has been seen.
pub struct AckReader {
    pub timeout_ms: u32,
    pub message: Vec<u8>,
    pub started: bool,
}

impl AckReader {
    /// The message holds at most eight bytes, is non-empty exactly once the
    /// marker was seen, and then begins with the marker.
    pub open spec fn wf(&self) -> bool {
        &&& self.message@.len() <= 8
        &&& self.started <==> self.message@.len() > 0
        &&& self.message@.len() > 0 ==> self.message@[0] == ACK_START
    }

    /// A reader that has seen nothing yet and has `timeout_ms` to go.
    pub fn new(timeout_ms: u32) -> (r: Self)
        ensures
            r.timeout_ms == timeout_ms,
            r.message@ == Seq::<u8>::empty(),
            !r.started,
            r.wf(),
    {
        AckReader { timeout_ms, message: Vec::with_capacity(8), started: false }
    }

    /// The read is over: seven bytes are assembled, or the budget is spent.
    pub fn is_finished(&self) -> (r: bool)
        ensures
            r == (self.message@.len() >= 7 || self.timeout_ms == 0),
    {
        self.message.len() >= 7 || self.timeout_ms == 0
    }

    /// Whether `available` buffered bytes are enough to read now.
    pub fn ready(&self, available: usize) -> (r: bool)
        ensures
            r == (available >= read_threshold(self.started)),
    {
        if self.started {
            available >= 1
        } else {
            available >= 7
        }
    }

    /// Spends one poll quantum of the budget, down to zero at most.
    pub fn wait(&mut self)
        ensures
            final(self).timeout_ms == budget_after_wait(old(self).timeout_ms),
            final(self).message == old(self).message,
            final(self).started == old(self).started,
    {
        self.timeout_ms = self.timeout_ms.saturating_sub(POLL_QUANTUM_MS);
    }

    /// The first seven bytes of the message, padded with a zero byte to a
    /// whole frame.
    fn frame(&self) -> (r: CommandBuffer)
        requires
            self.message@.len() >= 7,
        ensures
            forall|i: int| 0 <= i < 7 ==> r[i] == self.message@[i],
    {
        let mut frame: CommandBuffer = [0u8; 8];
        let mut i: usize = 0;
        while i < 7
            invariant
                0 <= i <= 7,
                self.message@.len() >= 7,
                forall|k: int| 0 <= k < i ==> frame[k] == self.message@[k],
            decreases 7 - i,
        {
            frame[i] = self.message[i];
            i = i + 1;
        }
        frame
    }

    /// Takes the first `n` bytes of `chunk` (at most all eight), in order,
    /// into the message.
    pub fn scan(&mut self, chunk: &CommandBuffer, n: usize)
        requires
            old(self).wf(),
        ensures
            (final(self).message@, final(self).started) == scan_bytes(
                old(self).message@,
                old(self).started,
                bytes_read(chunk@, n),
            ),
            final(self).timeout_ms == old(self).timeout_ms,
            final(self).wf(),
    {
        let count: usize = if n < 8 {
            n
        } else {
            8
        };
        let mut i: usize = 0;
        while i < count
            invariant
                0 <= i <= count <= 8,
                self.wf(),
                self.timeout_ms == old(self).timeout_ms,
                (self.message@, self.started) == scan_bytes(
                    old(self).message@,
                    old(self).started,
                    chunk@.take(i as int),
                ),
            decreases count - i,
        {
            let b = chunk[i];
            if self.message.len() < 8 {
                if !self.started {
                    self.started = b == ACK_START;
                }
                if self.started {
                    self.message.push(b);
                }
            }
            assert(chunk@.take(i + 1).drop_last() =~= chunk@.take(i as int));
            i = i + 1;
        }
        assert(chunk@.take(count as int) =~= bytes_read(chunk@, n));
    }

    /// Handles a read that reported `n` bytes into `chunk`. A read of no
    /// bytes means the line timed out and leaves the message as it is.
    /// Otherwise the bytes read (and only those) go into the message; then
    /// the reader either waits for more (fewer than seven bytes assembled)
    /// or checks the message's checksum byte against the XOR of
    /// the message's bytes 1 through 5 and decodes it.
    ///
    /// The checksum is taken over the assembled message, not over the last
    /// chunk alone, so that a message split across two reads is accepted.
    pub fn accept(&mut self, chunk: &CommandBuffer, n: usize) -> (r: AckStep)
        requires
            old(self).wf(),
        ensures
            n == 0 ==> r is Timeout && final(self).message@ == old(self).message@
                && final(self).started == old(self).started && final(self).timeout_ms == old(
                self,
            ).timeout_ms,
            n > 0 ==> ({
                let (m, s) = scan_bytes(
                    old(self).message@,
                    old(self).started,
                    bytes_read(chunk@, n),
                );
                &&& final(self).message@ == m
                &&& final(self).started == s
                &&& m.len() < 7 ==> r is Pending && final(self).timeout_ms == budget_after_wait(
                    old(self).timeout_ms,
                )
                &&& m.len() >= 7 ==> final(self).timeout_ms == old(self).timeout_ms
                &&& m.len() >= 7 && m[6] == checksum_of(m) ==> r == AckStep::Complete(
                    decode(m),
                )
                &&& m.len() >= 7 && m[6] != checksum_of(m) ==> r is ChecksumMismatch
            }),
            final(self).wf(),
    {
        if n == 0 {
            return AckStep::Timeout;
        }
        self.scan(chunk, n);
        if self.message.len() < 7 {
            self.wait();
            return AckStep::Pending;
        }
        if self.message[6] != get_check_sum(&self.frame()) {
            return AckStep::ChecksumMismatch;
        }
        AckStep::Complete(
            Ack { type_received: self.message[1], q1: self.message[2], q2: self.message[3] },
        )
    }
}

} // verus!
