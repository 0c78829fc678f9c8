//! The samples a session has recorded so far.

use crate::types::{AudioChunk, AudioChunkView};
use vstd::prelude::*;

verus! {

/// Sample rate of a buffer that has not yet received a chunk.
pub const DEFAULT_SAMPLE_RATE: u32 = 16000;

/// Channel count of a buffer that has not yet received a chunk.
pub const DEFAULT_CHANNELS: u16 = 1;

/// A non-negative rational number: `num / den`, with `den` above zero.
#[derive(Clone, Copy, Debug, PartialEq, Eq, Structural)]
pub struct Ratio {
    pub num: u64,
    pub den: u64,
}

/// Accumulator of one session's audio.
///
/// Samples are only ever appended. The sample rate, the channel count and the
/// time stamp are those of the chunk that came last.
#[derive(Debug)]
pub struct AudioBuffer {
    data: Vec<u32>,
    sample_rate: u32,
    channels: u16,
    last_chunk_time: u128,
}

/// `AudioBuffer` as a mathematical value.
pub struct AudioBufferView {
    pub data: Seq<u32>,
    pub sample_rate: u32,
    pub channels: u16,
    pub last_chunk_time: u128,
}

impl AudioBufferView {
    /// The buffer of a session that has just started at `now`.
    pub open spec fn fresh(now: u128) -> AudioBufferView {
        AudioBufferView {
            data: Seq::empty(),
            sample_rate: DEFAULT_SAMPLE_RATE,
            channels: DEFAULT_CHANNELS,
            last_chunk_time: now,
        }
    }

    /// The buffer after `chunk` has been appended: the samples follow those
    /// already held, the chunk's description replaces the buffer's.
    pub open spec fn append(self, chunk: AudioChunkView) -> AudioBufferView {
        AudioBufferView {
            data: self.data + chunk.data,
            sample_rate: chunk.sample_rate,
            channels: chunk.channels,
            last_chunk_time: chunk.timestamp,
        }
    }

    /// Samples that make up one second of audio, all channels together.
    pub open spec fn samples_per_second(self) -> int {
        self.sample_rate * self.channels
    }

    /// Length of the audio in seconds as numerator and denominator: the
    /// number of samples over `samples_per_second`, and zero where the
    /// sample rate or the channel count is zero.
    pub open spec fn duration(self) -> (int, int) {
        if self.sample_rate == 0 || self.channels == 0 {
            (0, 1)
        } else {
            (self.data.len() as int, self.samples_per_second())
        }
    }

    /// Time between the last chunk and `now`; zero where `now` lies before it.
    pub open spec fn elapsed(self, now: u128) -> int {
        if now >= self.last_chunk_time {
            now - self.last_chunk_time
        } else {
            0
        }
    }

    /// Whether more than `timeout` has passed since the last chunk.
    pub open spec fn idle(self, now: u128, timeout: u128) -> bool {
        self.elapsed(now) > timeout
    }
}

impl View for AudioBuffer {
    type V = AudioBufferView;

    closed spec fn view(&self) -> AudioBufferView {
        AudioBufferView {
            data: self.data@,
            sample_rate: self.sample_rate,
            channels: self.channels,
            last_chunk_time: self.last_chunk_time,
        }
    }
}

impl AudioBuffer {
    /// An empty buffer, stamped `now`, at 16 kHz mono until a chunk says
    /// otherwise.
    pub fn new(now: u128) -> (out: Self)
        ensures
            out@ == AudioBufferView::fresh(now),
    {
        AudioBuffer {
            data: Vec::new(),
            sample_rate: DEFAULT_SAMPLE_RATE,
            channels: DEFAULT_CHANNELS,
            last_chunk_time: now,
        }
    }

    /// Appends the samples of `chunk` and takes over its sample rate, channel
    /// count and time stamp. Earlier chunks are not compared with it.
    pub fn append_chunk(&mut self, chunk: &AudioChunk)
        ensures
            final(self)@ == old(self)@.append(chunk@),
    {
        let mut i: usize = 0;
        while i < chunk.data.len()
            invariant
                i <= chunk.data@.len(),
                self.data@ =~= old(self).data@ + chunk.data@.subrange(0, i as int),
                self.sample_rate == old(self).sample_rate,
                self.channels == old(self).channels,
                self.last_chunk_time == old(self).last_chunk_time,
            decreases chunk.data@.len() - i,
        {
            self.data.push(chunk.data[i]);
            i += 1;
        }
        assert(chunk.data@.subrange(0, i as int) =~= chunk.data@);
        self.sample_rate = chunk.sample_rate;
        self.channels = chunk.channels;
        self.last_chunk_time = chunk.timestamp;
    }

    /// Number of samples held.
    pub fn sample_count(&self) -> (out: usize)
        ensures
            out == self@.data.len(),
    {
        self.data.len()
    }

    /// Whether no sample has been appended yet.
    pub fn is_empty(&self) -> (out: bool)
        ensures
            out == (self@.data.len() == 0),
    {
        self.data.len() == 0
    }

    /// Sample rate of the last chunk.
    pub fn sample_rate(&self) -> (out: u32)
        ensures
            out == self@.sample_rate,
    {
        self.sample_rate
    }

    /// Channel count of the last chunk.
    pub fn channels(&self) -> (out: u16)
        ensures
            out == self@.channels,
    {
        self.channels
    }

    /// Time stamp of the last chunk, or of the buffer's creation.
    pub fn last_chunk_time(&self) -> (out: u128)
        ensures
            out == self@.last_chunk_time,
    {
        self.last_chunk_time
    }

    /// Length of the audio in seconds, as an exact fraction.
    ///
    /// An empty buffer gives a numerator of zero. A buffer of `n` samples at
    /// rate `r` with `c` channels gives `n / (r * c)`. Where rate or channel
    /// count is zero the result is `0 / 1`.
    pub fn duration_seconds(&self) -> (out: Ratio)
        ensures
            out.den > 0,
            (out.num as int, out.den as int) == self@.duration(),
    {
        if self.sample_rate == 0 || self.channels == 0 {
            return Ratio { num: 0, den: 1 };
        }
        let rate: u64 = self.sample_rate as u64;
        let channels: u64 = self.channels as u64;
        assert(rate * channels <= 0xFFFF_FFFF * 0xFFFF) by (nonlinear_arith)
            requires
                rate <= 0xFFFF_FFFF,
                channels <= 0xFFFF,
        ;
        assert(rate * channels > 0) by (nonlinear_arith)
            requires
                rate > 0,
                channels > 0,
        ;
        Ratio { num: self.data.len() as u64, den: rate * channels }
    }

    /// Whether more than `timeout` nanoseconds lie between the last chunk and
    /// `now`. A `now` that lies before the last chunk counts as no time passed.
    pub fn is_silent_timeout(&self, now: u128, timeout: u128) -> (out: bool)
        ensures
            out == self@.idle(now, timeout),
    {
        if now >= self.last_chunk_time {
            now - self.last_chunk_time > timeout
        } else {
            false
        }
    }

    /// A copy of every sample held, in the order of arrival.
    pub fn get_all_audio(&self) -> (out: Vec<u32>)
        ensures
            out@ == self@.data,
    {
        self.data.clone()
    }

    /// Gives up the buffer and hands out its samples, in the order of arrival.
    pub fn drain(self) -> (out: Vec<u32>)
        ensures
            out@ == self@.data,
    {
        self.data
    }
}

/// A buffer is not idle at the moment of its last chunk, whatever the
/// timeout, and stays so until the timeout has passed; from then on it is.
pub proof fn lemma_idle_after_append(
    buffer: AudioBufferView,
    chunk: AudioChunkView,
    now: u128,
    timeout: u128,
)
    ensures
        !buffer.append(chunk).idle(chunk.timestamp, timeout),
        now <= chunk.timestamp + timeout ==> !buffer.append(chunk).idle(now, timeout),
        now > chunk.timestamp + timeout ==> buffer.append(chunk).idle(now, timeout),
{
}

/// The duration of audio follows the samples: nothing recorded is zero
/// seconds, and `n` samples at a rate and channel count above zero are
/// `n / (rate * channels)` seconds.
pub proof fn lemma_duration(buffer: AudioBufferView)
    ensures
        buffer.data.len() == 0 ==> buffer.duration().0 == 0,
        buffer.duration().1 > 0,
        buffer.sample_rate > 0 && buffer.channels > 0 ==> buffer.duration() == (
            buffer.data.len() as int,
            buffer.sample_rate * buffer.channels,
        ),
{
    assert(buffer.sample_rate > 0 && buffer.channels > 0 ==> buffer.sample_rate * buffer.channels
        > 0) by (nonlinear_arith);
}

} // verus!
