//! Model of the signal engine: the autonomous state machine that turns
//! the single line into a self-clocked byte stream.
//!
//! The engine's two loops are modeled explicitly. The read loop samples
//! the line once per falling edge and shifts the level into an input
//! register, most significant bit first, delivering a byte after eight
//! samples. The write loop shifts a 9-bit window (8 data bits and the
//! frame flag) out of each engine input word; the ninth bit decides
//! whether the engine emits the stop marker and falls back to the read
//! loop, or chains gap-free into the next byte.

use vstd::prelude::*;

use crate::transport::spec_engine_word;

verus! {

/// Address of the read loop's entry point in the engine's instruction
/// memory. After a restart the engine must be forcibly resumed here (or
/// at `WRITE_LOOP_ENTRY`) by an explicit jump: free-running fall-through
/// must never be relied on after a queue flush, because stale partial
/// shift state could desynchronize sampling.
pub const READ_LOOP_ENTRY: u8 = 0;

/// Address of the write loop's entry point in the engine's instruction
/// memory.
pub const WRITE_LOOP_ENTRY: u8 = 5;

/// Bit `k` of an engine input word, in the order the write loop shifts
/// bits out (most significant first).
pub open spec fn word_bit(word: u32, k: int) -> bool {
    (word << (k as u32)) & 0x8000_0000u32 != 0
}

/// Bit `k` of a payload byte, most significant first: the order bits
/// appear on the line.
pub open spec fn byte_bit(value: u8, k: int) -> bool {
    (value << (k as u8)) & 0x80u8 != 0
}

/// The read loop's input shift register: one sampled level at a time,
/// most significant bit first, a byte delivered after eight.
pub struct BitSampler {
    shift: u8,
    count: u8,
}

impl BitSampler {
    /// The bits sampled so far, packed low.
    pub closed spec fn shift(self) -> u8 {
        self.shift
    }

    /// How many bits of the current byte have been sampled.
    pub closed spec fn count(self) -> u8 {
        self.count
    }

    /// A fresh register, as after a restart at the read-loop entry.
    pub fn new() -> (r: BitSampler)
        ensures
            r.shift() == 0,
            r.count() == 0,
    {
        BitSampler { shift: 0, count: 0 }
    }

    /// Sample one line level. The level is shifted in from the right, so
    /// earlier samples end up in more significant positions; the eighth
    /// sample completes a byte, which is delivered while the register
    /// resets for the next byte.
    pub fn sample(&mut self, level: bool) -> (r: Option<u8>)
        requires
            old(self).count() < 8,
        ensures
            ({
                let assembled = (old(self).shift() << 1) | (if level {
                    1u8
                } else {
                    0u8
                });
                if old(self).count() == 7 {
                    r == Some(assembled) && final(self).shift() == 0 && final(self).count() == 0
                } else {
                    r is None && final(self).shift() == assembled && final(self).count() == old(
                        self,
                    ).count() + 1
                }
            }),
    {
        self.shift = (self.shift << 1) | (if level {
            1
        } else {
            0
        });
        self.count = self.count + 1;
        if self.count == 8 {
            let value = self.shift;
            self.shift = 0;
            self.count = 0;
            Some(value)
        } else {
            None
        }
    }
}

/// The write loop's output shift register: a 9-bit window holding the
/// 8 data bits of one engine input word and the frame flag below them.
pub struct WriteWindow {
    osr: u32,
    remaining: u8,
}

/// What the write loop does with one shifted-out bit.
#[derive(Clone, Copy, PartialEq, Eq, Structural, Debug)]
pub enum WriteStep {
    /// Bits 1 to 8: drive the line low, then to the bit's value.
    DataBit(bool),
    /// Ninth bit set: emit the stop pulse and fall back to the read loop.
    StopToRead,
    /// Ninth bit clear: fetch the next byte's first bit without inserting
    /// inter-byte idle time, keeping multi-byte writes gap-free.
    ChainNextByte,
}

impl WriteWindow {
    /// The bits still to be shifted out, left-aligned.
    pub closed spec fn osr(self) -> u32 {
        self.osr
    }

    /// How many bits of the current 9-bit window remain.
    pub closed spec fn remaining(self) -> u8 {
        self.remaining
    }

    /// An empty register, as right after a restart at the write-loop
    /// entry.
    pub fn new() -> (r: WriteWindow)
        ensures
            r.remaining() == 0,
    {
        WriteWindow { osr: 0, remaining: 0 }
    }

    /// Whether the current window is exhausted and the next engine input
    /// word must be fetched.
    pub fn exhausted(&self) -> (r: bool)
        ensures
            r == (self.remaining() == 0),
    {
        self.remaining == 0
    }

    /// Fetch the next engine input word into the register, opening a
    /// fresh 9-bit window.
    pub fn refill(&mut self, word: u32)
        requires
            old(self).remaining() == 0,
        ensures
            final(self).osr() == word,
            final(self).remaining() == 9,
    {
        self.osr = word;
        self.remaining = 9;
    }
}

/// Shift one bit out of the window and decide what the engine does with
/// it: bits 1 to 8 are driven onto the line; the ninth bit is the frame
/// flag, which either asserts the stop marker and returns the engine to
/// the read loop, or chains into the next byte.
pub fn write_step(w: &mut WriteWindow) -> (r: WriteStep)
    requires
        old(w).remaining() > 0,
    ensures
        final(w).osr() == old(w).osr() << 1,
        final(w).remaining() == old(w).remaining() - 1,
        old(w).remaining() > 1 ==> r == WriteStep::DataBit(old(w).osr() & 0x8000_0000u32 != 0),
        old(w).remaining() == 1 && old(w).osr() & 0x8000_0000u32 != 0 ==> r
            == WriteStep::StopToRead,
        old(w).remaining() == 1 && old(w).osr() & 0x8000_0000u32 == 0 ==> r
            == WriteStep::ChainNextByte,
{
    let bit = w.osr & 0x8000_0000u32 != 0;
    w.osr = w.osr << 1;
    let ninth = w.remaining == 1;
    w.remaining = w.remaining - 1;
    if !ninth {
        WriteStep::DataBit(bit)
    } else if bit {
        WriteStep::StopToRead
    } else {
        WriteStep::ChainNextByte
    }
}

/// Shifting a left-aligned register one more place reaches the next bit.
proof fn lemma_shl_step(word: u32, k: u32)
    by (bit_vector)
    requires
        k < 8,
    ensures
        (word << k) << 1u32 == word << ((k + 1) as u32),
{
}

/// Shift one whole 9-bit window out of the engine: the 8 data bits in
/// line order, and whether the stop marker is asserted afterwards.
pub fn emit_window(word: u32) -> (r: (Vec<bool>, bool))
    ensures
        r.0@.len() == 8,
        forall|k: int| 0 <= k < 8 ==> r.0@[k] == word_bit(word, k),
        r.1 == word_bit(word, 8),
{
    let mut w = WriteWindow::new();
    w.refill(word);
    proof {
        assert(word << 0u32 == word) by (bit_vector);
    }
    let mut bits: Vec<bool> = Vec::new();
    let mut k: usize = 0;
    while k < 8
        invariant
            k <= 8,
            w.osr() == word << (k as u32),
            w.remaining() == 9 - k,
            bits@.len() == k,
            forall|j: int| 0 <= j < k ==> bits@[j] == word_bit(word, j),
        decreases 8 - k,
    {
        proof {
            lemma_shl_step(word, k as u32);
        }
        let step = write_step(&mut w);
        match step {
            WriteStep::DataBit(bit) => {
                bits.push(bit);
            },
            WriteStep::StopToRead => {
                proof {
                    assert(false);
                }
            },
            WriteStep::ChainNextByte => {
                proof {
                    assert(false);
                }
            },
        }
        k += 1;
    }
    let step = write_step(&mut w);
    let stop = match step {
        WriteStep::StopToRead => true,
        WriteStep::ChainNextByte => false,
        WriteStep::DataBit(_) => {
            proof {
                assert(false);
            }
            false
        },
    };
    (bits, stop)
}

/// The window of an engine input word carries exactly the byte's bits in
/// line order, and its ninth bit is the frame flag.
pub proof fn lemma_window_of_engine_word(value: u8, last: bool)
    ensures
        forall|k: int| 0 <= k < 8 ==> word_bit(spec_engine_word(value, last), k) == byte_bit(
            value,
            k,
        ),
        word_bit(spec_engine_word(value, last), 8) == last,
{
    assert forall|k: int| 0 <= k < 8 implies word_bit(spec_engine_word(value, last), k)
        == byte_bit(value, k) by {
        let kk = k as u32;
        if last {
            assert((((value as u32) << 24 | (1u32 << 23)) << kk) & 0x8000_0000u32 != 0 <==> (value
                << (kk as u8)) & 0x80u8 != 0) by (bit_vector)
                requires
                    kk < 8,
            ;
        } else {
            assert((((value as u32) << 24 | 0u32) << kk) & 0x8000_0000u32 != 0 <==> (value << (kk
                as u8)) & 0x80u8 != 0) by (bit_vector)
                requires
                    kk < 8,
            ;
        }
    }
    if last {
        assert((((value as u32) << 24 | (1u32 << 23)) << 8u32) & 0x8000_0000u32 != 0)
            by (bit_vector);
    } else {
        assert((((value as u32) << 24 | 0u32) << 8u32) & 0x8000_0000u32 == 0) by (bit_vector);
    }
}

/// One sampler step absorbs the next line-order bit of the byte being
/// reassembled.
proof fn lemma_sampler_step(value: u8, k: u8)
    by (bit_vector)
    requires
        k < 8,
    ensures
        ((value >> ((8 - k) as u8)) << 1) | (if (value << k) & 0x80u8 != 0 {
            1u8
        } else {
            0u8
        }) == value >> ((7 - k) as u8),
{
}

/// One byte's round trip through the signal engine model: packing a byte
/// into an engine input word, shifting the word's window out through the
/// write loop, and sampling the emitted bits back through the read loop
/// reproduces exactly the byte, with the stop marker asserted exactly
/// when the word carried the final-byte flag.
pub fn transfer_byte(value: u8, last: bool) -> (r: (u8, bool))
    ensures
        r.0 == value,
        r.1 == last,
{
    let word = crate::transport::engine_word(value, last);
    proof {
        lemma_window_of_engine_word(value, last);
    }
    let (bits, stop) = emit_window(word);
    let mut sampler = BitSampler::new();
    let mut delivered: Option<u8> = None;
    proof {
        assert(value >> 8u8 == 0) by (bit_vector);
        assert(value >> 0u8 == value) by (bit_vector);
    }
    let mut k: u8 = 0;
    while k < 8
        invariant
            bits@.len() == 8,
            forall|j: int| 0 <= j < 8 ==> bits@[j] == byte_bit(value, j),
            k <= 8,
            value >> 8u8 == 0,
            value >> 0u8 == value,
            k < 8 ==> delivered is None && sampler.count() == k && sampler.shift() == value >> ((8
                - k) as u8),
            k == 8 ==> delivered == Some(value),
        decreases 8 - k,
    {
        proof {
            assert(((k as int) as u8) == k);
            assert(byte_bit(value, k as int) == ((value << k) & 0x80u8 != 0));
            lemma_sampler_step(value, k);
        }
        let level = bits[k as usize];
        proof {
            assert(level == ((value << k) & 0x80u8 != 0));
        }
        let r = sampler.sample(level);
        if k == 7 {
            delivered = r;
        }
        k += 1;
    }
    let out = match delivered {
        Some(v) => v,
        None => {
            proof {
                assert(false);
            }
            0
        },
    };
    (out, stop)
}

/// A whole frame's round trip through the signal engine model: every
/// payload byte is reproduced exactly, in order, and the stop marker is
/// asserted after the last byte and no other, so consecutive bytes of a
/// frame chain gap-free and the engine returns to the read loop exactly
/// once, at the end of the frame.
pub fn transfer_frame(payload: &[u8]) -> (r: (Vec<u8>, Vec<bool>))
    ensures
        r.0@ == payload@,
        r.1@.len() == payload@.len(),
        forall|i: int| 0 <= i < payload@.len() ==> r.1@[i] == (i == payload@.len() - 1),
{
    let mut decoded: Vec<u8> = Vec::new();
    let mut stops: Vec<bool> = Vec::new();
    let mut i: usize = 0;
    while i < payload.len()
        invariant
            i <= payload@.len(),
            decoded@.len() == i,
            stops@.len() == i,
            forall|j: int| 0 <= j < i ==> decoded@[j] == payload@[j],
            forall|j: int| 0 <= j < i ==> stops@[j] == (j == payload@.len() - 1),
        decreases payload@.len() - i,
    {
        let last = i == payload.len() - 1;
        let (value, stop) = transfer_byte(payload[i], last);
        decoded.push(value);
        stops.push(stop);
        i += 1;
    }
    proof {
        assert(decoded@ =~= payload@);
    }
    (decoded, stops)
}

} // verus!
