//! Reading IQ samples from a file of interleaved 32-bit floats.
//!
//! A sample is a pair of little-endian 32-bit floats, first I, then Q: eight
//! bytes. The library never computes with the floats, so a sample is held
//! here as the two bit patterns, and whoever needs numbers reads them as
//! floats.
//!
//! Filling a buffer of samples takes a loop of reads, which the caller
//! makes. What to do after each read is decided by [`ReadProgress`], and the
//! bytes that were read are turned into samples by [`decode_samples`].

use vstd::prelude::*;

verus! {

/// Bytes that one sample takes in the file.
pub const BYTES_PER_SAMPLE: usize = 8;

/// One IQ sample, as the bit patterns of its two floats.
#[derive(Debug, Clone, Copy, PartialEq, Eq, Structural)]
pub struct IqSample {
    /// Bits of the in-phase part.
    pub i_bits: u32,
    /// Bits of the quadrature part.
    pub q_bits: u32,
}

/// What one read from the file brought.
#[derive(Debug, Clone, Copy, PartialEq, Eq, Structural)]
pub enum ReadOutcome {
    /// So many bytes were read. None means the end of the file.
    Read(usize),
    /// The read was interrupted before it brought anything.
    Interrupted,
    /// The read, or the seek before it, failed.
    Failed,
}

/// What to do next to fill the buffer.
#[derive(Debug, Clone, Copy, PartialEq, Eq, Structural)]
pub enum ReadAction {
    /// Read into the byte buffer from `offset` on.
    Read { offset: usize },
    /// Go back to the start of the file, then read into the byte buffer
    /// from its beginning.
    Rewind,
    /// Stop reading: the first `total_read` bytes of the buffer are to be
    /// decoded.
    Done { total_read: usize },
    /// Give up and hand on the failure of the read.
    Fail,
}

/// The 32-bit number that four bytes spell, lowest byte first.
pub open spec fn spec_u32_le(b0: u8, b1: u8, b2: u8, b3: u8) -> int {
    b0 + 256 * b1 + 65_536 * b2 + 16_777_216 * b3
}

/// Sample number `i` of `bytes`.
pub open spec fn spec_sample(bytes: Seq<u8>, i: int) -> IqSample {
    IqSample {
        i_bits: spec_u32_le(bytes[8 * i], bytes[8 * i + 1], bytes[8 * i + 2], bytes[8 * i + 3]) as u32,
        q_bits: spec_u32_le(
            bytes[8 * i + 4],
            bytes[8 * i + 5],
            bytes[8 * i + 6],
            bytes[8 * i + 7],
        ) as u32,
    }
}

/// How many samples `bytes` give to a buffer with room for `room`: the
/// whole samples there are, a rest of less than a sample left aside, and
/// no more than there is room for.
pub open spec fn spec_sample_count(bytes: Seq<u8>, room: nat) -> nat {
    if bytes.len() / 8 <= room {
        bytes.len() / 8
    } else {
        room
    }
}

/// The buffer after `bytes` are decoded into it: the samples of `bytes`
/// first, then what the buffer held beyond them.
pub open spec fn spec_decoded(bytes: Seq<u8>, buf: Seq<IqSample>) -> Seq<IqSample> {
    Seq::new(spec_sample_count(bytes, buf.len()), |i: int| spec_sample(bytes, i)) + buf.skip(
        spec_sample_count(bytes, buf.len()) as int,
    )
}

/// The number that four bytes spell, lowest byte first.
fn u32_le(b0: u8, b1: u8, b2: u8, b3: u8) -> (r: u32)
    ensures
        r == spec_u32_le(b0, b1, b2, b3),
{
    b0 as u32 + 256 * (b1 as u32) + 65_536 * (b2 as u32) + 16_777_216 * (b3 as u32)
}

/// Turns the bytes that were read into samples at the front of `buf` and
/// tells how many they are. Bytes at the end that do not make a whole sample
/// are left aside, and so are bytes beyond the room in `buf`. The samples of
/// `buf` behind those that were decoded stay as they were.
pub fn decode_samples(bytes: &[u8], buf: &mut Vec<IqSample>) -> (samples_read: usize)
    ensures
        samples_read == spec_sample_count(bytes@, old(buf)@.len()),
        final(buf)@ == spec_decoded(bytes@, old(buf)@),
        final(buf)@.len() == old(buf)@.len(),
{
    let whole = bytes.len() / BYTES_PER_SAMPLE;
    let samples_read = if whole <= buf.len() {
        whole
    } else {
        buf.len()
    };
    let mut i: usize = 0;
    while i < samples_read
        invariant
            i <= samples_read <= buf@.len(),
            samples_read * 8 <= bytes@.len() <= usize::MAX,
            buf@.len() == old(buf)@.len(),
            forall|j: int| 0 <= j < i ==> buf@[j] == spec_sample(bytes@, j),
            forall|j: int| i <= j < buf@.len() ==> buf@[j] == old(buf)@[j],
        decreases samples_read - i,
    {
        assert(i * 8 + 8 <= samples_read * 8) by (nonlinear_arith)
            requires
                i < samples_read,
        ;
        let at = i * BYTES_PER_SAMPLE;
        let sample = IqSample {
            i_bits: u32_le(bytes[at], bytes[at + 1], bytes[at + 2], bytes[at + 3]),
            q_bits: u32_le(bytes[at + 4], bytes[at + 5], bytes[at + 6], bytes[at + 7]),
        };
        buf.set(i, sample);
        i += 1;
    }
    assert(buf@ =~= spec_decoded(bytes@, old(buf)@));
    samples_read
}

/// How far the filling of one buffer has come.
#[derive(Debug, Clone, Copy, PartialEq, Eq, Structural)]
pub struct ReadProgress {
    /// Bytes that fill the buffer.
    pub bytes_needed: usize,
    /// Bytes read so far.
    pub total_read: usize,
    /// Whether the file starts over when it ends.
    pub loop_on_eof: bool,
}

impl ReadProgress {
    /// The progress after `outcome`, with bytes counted no further than
    /// the buffer is long.
    pub open spec fn spec_advance(self, outcome: ReadOutcome) -> ReadProgress {
        match outcome {
            ReadOutcome::Read(n) => ReadProgress {
                total_read: if self.total_read + n <= self.bytes_needed {
                    (self.total_read + n) as usize
                } else if self.total_read <= self.bytes_needed {
                    self.bytes_needed
                } else {
                    self.total_read
                },
                ..self
            },
            _ => self,
        }
    }

    /// What to do after `outcome`, the progress being what it was before.
    /// The end of the file starts a looping file over, if nothing was read
    /// yet, and else ends the reading, as a full buffer does. An interrupted
    /// read is made again. A failure is handed on.
    pub open spec fn spec_action(self, outcome: ReadOutcome) -> ReadAction {
        match outcome {
            ReadOutcome::Read(n) => if n == 0 {
                if self.loop_on_eof && self.total_read == 0 {
                    ReadAction::Rewind
                } else {
                    ReadAction::Done { total_read: self.total_read }
                }
            } else if self.spec_advance(outcome).total_read >= self.bytes_needed {
                ReadAction::Done { total_read: self.spec_advance(outcome).total_read }
            } else {
                ReadAction::Read { offset: self.spec_advance(outcome).total_read }
            },
            ReadOutcome::Interrupted => ReadAction::Read { offset: self.total_read },
            ReadOutcome::Failed => ReadAction::Fail,
        }
    }

    /// Starts the filling of a buffer of `samples` samples. There is no
    /// progress to start when the bytes of the buffer cannot be counted.
    pub fn new(samples: usize, loop_on_eof: bool) -> (r: Option<ReadProgress>)
        ensures
            samples * BYTES_PER_SAMPLE <= usize::MAX ==> r == Some(
                ReadProgress {
                    bytes_needed: (samples * BYTES_PER_SAMPLE) as usize,
                    total_read: 0,
                    loop_on_eof,
                },
            ),
            samples * BYTES_PER_SAMPLE > usize::MAX ==> r is None,
    {
        match samples.checked_mul(BYTES_PER_SAMPLE) {
            Some(bytes_needed) => Some(ReadProgress { bytes_needed, total_read: 0, loop_on_eof }),
            None => None,
        }
    }

    /// What to do first: read from where the progress stands.
    pub fn start(&self) -> (r: ReadAction)
        ensures
            r == (ReadAction::Read { offset: self.total_read }),
    {
        ReadAction::Read { offset: self.total_read }
    }

    /// Takes in what one read brought and tells what to do next.
    pub fn advance(&mut self, outcome: ReadOutcome) -> (r: ReadAction)
        ensures
            *final(self) == old(self).spec_advance(outcome),
            r == old(self).spec_action(outcome),
    {
        match outcome {
            ReadOutcome::Read(n) => {
                if n == 0 {
                    if self.loop_on_eof && self.total_read == 0 {
                        ReadAction::Rewind
                    } else {
                        ReadAction::Done { total_read: self.total_read }
                    }
                } else {
                    if self.total_read <= self.bytes_needed {
                        if n <= self.bytes_needed - self.total_read {
                            self.total_read = self.total_read + n;
                        } else {
                            self.total_read = self.bytes_needed;
                        }
                    }
                    if self.total_read >= self.bytes_needed {
                        ReadAction::Done { total_read: self.total_read }
                    } else {
                        ReadAction::Read { offset: self.total_read }
                    }
                }
            },
            ReadOutcome::Interrupted => ReadAction::Read { offset: self.total_read },
            ReadOutcome::Failed => ReadAction::Fail,
        }
    }
}

} // verus!
