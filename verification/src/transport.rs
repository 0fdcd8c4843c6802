//! The frame transport: byte-level send/receive discipline between the
//! host and the autonomously clocked signal engine.
//!
//! The two fixed-depth queues, the line direction and the restart/flush
//! discipline are modeled here as an owned value, so the queue invariants
//! can be stated and checked; the real hardware queues are driven by an
//! unverified shim that mirrors these operations one for one.

use vstd::prelude::*;

verus! {

/// Depth of each hardware queue between the host and the signal engine.
pub const QUEUE_DEPTH: usize = 4;

/// The direction the single physical line is driven in. Owned exclusively
/// by the transport; changed only by an explicit restart.
#[derive(Clone, Copy, PartialEq, Eq, Structural, Debug)]
pub enum LineDirection {
    Input,
    Output,
}

/// Model of one transport endpoint: the line direction and the two
/// fixed-depth queues shared with the signal engine. The receive queue
/// holds bytes the engine has assembled; the transmit queue holds engine
/// input words (see `spec_engine_word`).
pub struct Transport {
    direction: LineDirection,
    rx_fifo: Vec<u8>,
    tx_fifo: Vec<u32>,
}

impl Transport {
    /// The bytes the engine has delivered and the host has not consumed,
    /// oldest first.
    pub closed spec fn rx(self) -> Seq<u8> {
        self.rx_fifo@
    }

    /// The engine input words the host has queued and the engine has not
    /// consumed, oldest first.
    pub closed spec fn tx(self) -> Seq<u32> {
        self.tx_fifo@
    }

    /// The current line direction.
    pub closed spec fn direction(self) -> LineDirection {
        self.direction
    }

    /// Both queues respect the fixed hardware depth.
    pub closed spec fn wf(self) -> bool {
        self.rx_fifo@.len() <= QUEUE_DEPTH && self.tx_fifo@.len() <= QUEUE_DEPTH
    }

    /// A fresh transport: the engine starts at its read-loop entry, so the
    /// line is an input and both queues are empty.
    pub fn new() -> (r: Transport)
        ensures
            r.wf(),
            r.direction() == LineDirection::Input,
            r.rx() == Seq::<u8>::empty(),
            r.tx() == Seq::<u32>::empty(),
    {
        let r = Transport { direction: LineDirection::Input, rx_fifo: Vec::new(), tx_fifo: Vec::new() };
        proof {
            assert(r.rx() =~= Seq::<u8>::empty());
            assert(r.tx() =~= Seq::<u32>::empty());
        }
        r
    }

    /// Clear both queues and force the engine to its read-loop entry.
    /// Every byte queued before the call, in either direction, is
    /// discarded: nothing queued before a direction switch is ever
    /// observed after it.
    pub fn restart_for_read(&mut self)
        ensures
            final(self).wf(),
            final(self).direction() == LineDirection::Input,
            final(self).rx() == Seq::<u8>::empty(),
            final(self).tx() == Seq::<u32>::empty(),
    {
        self.rx_fifo.clear();
        self.tx_fifo.clear();
        self.direction = LineDirection::Input;
        proof {
            assert(final(self).rx() =~= Seq::<u8>::empty());
            assert(final(self).tx() =~= Seq::<u32>::empty());
        }
    }

    /// Clear both queues and force the engine to its write-loop entry.
    /// Discards exactly as `restart_for_read` does.
    pub fn restart_for_write(&mut self)
        ensures
            final(self).wf(),
            final(self).direction() == LineDirection::Output,
            final(self).rx() == Seq::<u8>::empty(),
            final(self).tx() == Seq::<u32>::empty(),
    {
        self.rx_fifo.clear();
        self.tx_fifo.clear();
        self.direction = LineDirection::Output;
        proof {
            assert(final(self).rx() =~= Seq::<u8>::empty());
            assert(final(self).tx() =~= Seq::<u32>::empty());
        }
    }

    /// Whether the line is currently an input, i.e. read framing is
    /// active.
    pub fn direction_is_input(&self) -> (r: bool)
        ensures
            r == (self.direction() == LineDirection::Input),
    {
        match self.direction {
            LineDirection::Input => true,
            LineDirection::Output => false,
        }
    }

    /// The engine delivers one assembled byte into the receive queue.
    /// A full queue drops the byte; the host side must drain in time.
    pub fn engine_deliver(&mut self, value: u8) -> (accepted: bool)
        requires
            old(self).wf(),
        ensures
            final(self).wf(),
            final(self).direction() == old(self).direction(),
            final(self).tx() == old(self).tx(),
            accepted == (old(self).rx().len() < QUEUE_DEPTH),
            accepted ==> final(self).rx() == old(self).rx().push(value),
            !accepted ==> final(self).rx() == old(self).rx(),
    {
        if self.rx_fifo.len() < QUEUE_DEPTH {
            self.rx_fifo.push(value);
            true
        } else {
            false
        }
    }

    /// The host polls the receive queue once: the oldest byte if one is
    /// present, `None` on an empty queue (the normal idle condition).
    pub fn try_take(&mut self) -> (r: Option<u8>)
        requires
            old(self).wf(),
        ensures
            final(self).wf(),
            final(self).direction() == old(self).direction(),
            final(self).tx() == old(self).tx(),
            old(self).rx().len() == 0 ==> r is None && final(self).rx() == old(self).rx(),
            old(self).rx().len() > 0 ==> r == Some(old(self).rx()[0]) && final(self).rx()
                == old(self).rx().drop_first(),
    {
        if self.rx_fifo.len() == 0 {
            None
        } else {
            let value = self.rx_fifo.remove(0);
            Some(value)
        }
    }

    /// The host queues one engine input word for transmission. A full
    /// queue rejects the word; the host busy-waits and retries.
    pub fn queue_word(&mut self, word: u32) -> (accepted: bool)
        requires
            old(self).wf(),
        ensures
            final(self).wf(),
            final(self).direction() == old(self).direction(),
            final(self).rx() == old(self).rx(),
            accepted == (old(self).tx().len() < QUEUE_DEPTH),
            accepted ==> final(self).tx() == old(self).tx().push(word),
            !accepted ==> final(self).tx() == old(self).tx(),
    {
        if self.tx_fifo.len() < QUEUE_DEPTH {
            self.tx_fifo.push(word);
            true
        } else {
            false
        }
    }

    /// The engine fetches the next input word to shift out, if any.
    pub fn engine_take_word(&mut self) -> (r: Option<u32>)
        requires
            old(self).wf(),
        ensures
            final(self).wf(),
            final(self).direction() == old(self).direction(),
            final(self).rx() == old(self).rx(),
            old(self).tx().len() == 0 ==> r is None && final(self).tx() == old(self).tx(),
            old(self).tx().len() > 0 ==> r == Some(old(self).tx()[0]) && final(self).tx()
                == old(self).tx().drop_first(),
    {
        if self.tx_fifo.len() == 0 {
            None
        } else {
            let word = self.tx_fifo.remove(0);
            Some(word)
        }
    }
}

/// One step of the bounded receive wait, deciding from one queue poll and
/// the elapsed time. A byte that is already there is returned whatever
/// the clock says; "no data" is signalled only once the elapsed time
/// exceeds the bound, so the wait never gives up early and never keeps
/// waiting more than one polling granularity past the bound.
#[derive(Clone, Copy, PartialEq, Eq, Structural, Debug)]
pub enum RecvStep {
    /// A byte was available: receive returns it.
    Got(u8),
    /// Nothing available and the bound is exhausted: receive returns
    /// "no data".
    TimedOut,
    /// Nothing available but time remains: poll again.
    KeepWaiting,
}

/// Decide one iteration of the receive busy-wait loop. The queue hands
/// back a 32-bit word whose low 8 bits are the assembled byte (the read
/// loop shifts left with an 8-bit delivery threshold), so the word is
/// truncated to that byte.
pub fn recv_step(taken: Option<u32>, elapsed: u64, bound: u64) -> (r: RecvStep)
    ensures
        taken is Some ==> r == RecvStep::Got((taken->0) as u8),
        taken is None && elapsed > bound ==> r == RecvStep::TimedOut,
        taken is None && elapsed <= bound ==> r == RecvStep::KeepWaiting,
{
    match taken {
        Some(word) => RecvStep::Got(word as u8),
        None => {
            if elapsed > bound {
                RecvStep::TimedOut
            } else {
                RecvStep::KeepWaiting
            }
        },
    }
}

/// One engine input word: the payload byte in the high 8 bits, and the
/// "final byte of the frame" flag in the bit immediately below it. The
/// engine asserts the stop marker after a byte exactly when the flag is
/// set.
pub open spec fn spec_engine_word(value: u8, last: bool) -> u32 {
    ((value as u32) << 24) | (if last {
        (1u32 << 23)
    } else {
        0u32
    })
}

/// Pack one payload byte into an engine input word.
pub fn engine_word(value: u8, last: bool) -> (r: u32)
    ensures
        r == spec_engine_word(value, last),
{
    ((value as u32) << 24) | (if last {
        1u32 << 23
    } else {
        0u32
    })
}

/// The words a payload is sent as: one per byte, in order, with only the
/// last byte's frame flag set.
pub open spec fn spec_frame_words(payload: Seq<u8>) -> Seq<u32> {
    Seq::new(payload.len(), |i: int| spec_engine_word(payload[i], i == payload.len() - 1))
}

/// Pack a whole payload into engine input words, marking the last byte.
pub fn encode_frame(payload: &[u8]) -> (r: Vec<u32>)
    ensures
        r@ == spec_frame_words(payload@),
{
    let mut r: Vec<u32> = Vec::new();
    let mut i: usize = 0;
    while i < payload.len()
        invariant
            i <= payload@.len(),
            r@.len() == i,
            forall|k: int|
                0 <= k < i ==> r@[k] == spec_engine_word(payload@[k], k == payload@.len() - 1),
        decreases payload@.len() - i,
    {
        let last = i == payload.len() - 1;
        let word = engine_word(payload[i], last);
        r.push(word);
        i += 1;
    }
    proof {
        assert(r@ =~= spec_frame_words(payload@));
    }
    r
}

/// Unpacking an engine input word recovers the byte and the frame flag it
/// was packed from, and the bits below the flag are clear.
pub proof fn lemma_engine_word_roundtrip(value: u8, last: bool)
    ensures
        (spec_engine_word(value, last) >> 24) as u8 == value,
        (spec_engine_word(value, last) & 0x0080_0000 != 0) == last,
        spec_engine_word(value, last) & 0x007F_FFFF == 0,
{
    if last {
        assert((((value as u32) << 24 | (1u32 << 23)) >> 24) as u8 == value && (((value as u32)
            << 24 | (1u32 << 23)) & 0x0080_0000 != 0) && ((value as u32) << 24 | (1u32 << 23))
            & 0x007F_FFFF == 0) by (bit_vector);
    } else {
        assert((((value as u32) << 24 | 0u32) >> 24) as u8 == value && !(((value as u32) << 24
            | 0u32) & 0x0080_0000 != 0) && ((value as u32) << 24 | 0u32) & 0x007F_FFFF == 0)
            by (bit_vector);
    }
}

} // verus!
