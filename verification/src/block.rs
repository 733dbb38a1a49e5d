//! The buffers of one audio block, behind bounds-checked views.
//!
//! A block holds an input region and an output region of interleaved
//! samples. Frame `f`, channel `c` of a region with `n` channels lives in
//! slot `f * n + c`.

use vstd::prelude::*;
use crate::sample::Sample;

verus! {

/// What the backend reports for one block. It does not change while a
/// callback runs.
#[derive(Clone, Copy, Debug, PartialEq, Eq, Structural)]
pub struct RenderContext {
    /// Frames in the block.
    pub frames: usize,
    /// Channels of the input region.
    pub in_channels: usize,
    /// Channels of the output region.
    pub out_channels: usize,
    /// Frames per second.
    pub sample_rate: u32,
    /// Number of blocks delivered before this one.
    pub sequence: usize,
}

/// Nanoseconds in a second.
pub const NANOS_PER_SECOND: u64 = 1_000_000_000;

impl RenderContext {
    /// Whether `elapsed_nanos` is more than the block lasts. A block lasts
    /// `frames / sample_rate` seconds.
    pub open spec fn budget_exceeded(self, elapsed_nanos: u64) -> bool {
        elapsed_nanos * self.sample_rate > self.frames * NANOS_PER_SECOND
    }

    /// Whether a callback that ran for `elapsed_nanos` missed the block's
    /// deadline.
    pub fn deadline_missed(&self, elapsed_nanos: u64) -> (missed: bool)
        ensures
            missed == self.budget_exceeded(elapsed_nanos),
    {
        proof {
            assert(elapsed_nanos * self.sample_rate <= 0xffff_ffff_ffff_ffff * 0xffff_ffff)
                by (nonlinear_arith)
                requires
                    0 <= elapsed_nanos <= 0xffff_ffff_ffff_ffff,
                    0 <= self.sample_rate <= 0xffff_ffff,
            ;
            assert(self.frames * NANOS_PER_SECOND <= 0xffff_ffff_ffff_ffff * 1_000_000_000)
                by (nonlinear_arith)
                requires
                    0 <= self.frames <= 0xffff_ffff_ffff_ffff,
                    NANOS_PER_SECOND == 1_000_000_000,
            ;
        }
        let used: u128 = (elapsed_nanos as u128) * (self.sample_rate as u128);
        let budget: u128 = (self.frames as u128) * (NANOS_PER_SECOND as u128);
        used > budget
    }
}

/// Why a block could not be built.
#[derive(Clone, Copy, Debug, PartialEq, Eq, Structural)]
pub enum ViewError {
    /// `frames * channels` does not fit the machine's index type.
    CountOverflow,
    /// A buffer does not hold exactly `frames * channels` samples.
    LengthMismatch,
}

/// The slot of frame `frame`, channel `channel` in an interleaved region
/// with `channels` channels.
pub open spec fn slot(frame: int, channel: int, channels: int) -> int {
    frame * channels + channel
}

/// One channel of an interleaved region, frame by frame.
pub open spec fn channel_of(region: Seq<Sample>, frames: nat, channels: nat, channel: nat) -> Seq<
    Sample,
> {
    Seq::new(frames, |frame: int| region[slot(frame, channel as int, channels as int)])
}

/// The slots of one channel: slot `i` belongs to `channel` when it is the
/// slot of some frame on that channel.
pub open spec fn on_channel(i: int, channel: int, channels: int) -> bool {
    channels > 0 && i >= 0 && i % channels == channel
}

/// Whether `frames * channels` fits the machine's index type, for both
/// regions.
pub open spec fn counts_fit(context: RenderContext) -> bool {
    &&& context.frames * context.in_channels <= usize::MAX
    &&& context.frames * context.out_channels <= usize::MAX
}

/// Whether two buffers of these lengths are exactly the regions that
/// `context` describes.
pub open spec fn lengths_match(context: RenderContext, input_len: nat, output_len: nat) -> bool {
    &&& input_len == context.frames * context.in_channels
    &&& output_len == context.frames * context.out_channels
}

/// A slot of a frame and a channel in range lies inside the region.
pub proof fn lemma_slot_in_region(frame: int, channel: int, frames: int, channels: int)
    requires
        0 <= frame < frames,
        0 <= channel < channels,
    ensures
        0 <= slot(frame, channel, channels) < frames * channels,
        slot(frame, channel, channels) / channels == frame,
        slot(frame, channel, channels) % channels == channel,
        on_channel(slot(frame, channel, channels), channel, channels),
{
    assert(0 <= frame * channels) by (nonlinear_arith)
        requires
            0 <= frame,
            0 <= channels,
    ;
    assert(frame * channels + channels <= frames * channels) by (nonlinear_arith)
        requires
            frame + 1 <= frames,
            0 <= channels,
    ;
    vstd::arithmetic::div_mod::lemma_fundamental_div_mod_converse(
        slot(frame, channel, channels),
        channels,
        frame,
        channel,
    );
}

/// Two different places never share a slot: regions sliced by channel do
/// not overlap.
pub proof fn lemma_slots_distinct(
    frame_a: int,
    channel_a: int,
    frame_b: int,
    channel_b: int,
    frames: int,
    channels: int,
)
    requires
        0 <= frame_a < frames,
        0 <= frame_b < frames,
        0 <= channel_a < channels,
        0 <= channel_b < channels,
        frame_a != frame_b || channel_a != channel_b,
    ensures
        slot(frame_a, channel_a, channels) != slot(frame_b, channel_b, channels),
{
    lemma_slot_in_region(frame_a, channel_a, frames, channels);
    lemma_slot_in_region(frame_b, channel_b, frames, channels);
}

/// Every slot of a region is the slot of exactly one frame and channel in
/// range: the channels together cover the region.
pub proof fn lemma_slots_cover(i: int, frames: int, channels: int)
    requires
        0 <= i < frames * channels,
        0 <= frames,
        0 <= channels,
    ensures
        channels > 0,
        0 <= i / channels < frames,
        0 <= i % channels < channels,
        slot(i / channels, i % channels, channels) == i,
{
    assert(channels > 0) by (nonlinear_arith)
        requires
            0 <= i < frames * channels,
            0 <= channels,
    ;
    vstd::arithmetic::div_mod::lemma_fundamental_div_mod(i, channels);
    vstd::arithmetic::div_mod::lemma_mod_bound(i, channels);
    let q = i / channels;
    assert(channels * q == q * channels) by (nonlinear_arith);
    assert(q >= 0) by (nonlinear_arith)
        requires
            q * channels + i % channels == i,
            0 <= i % channels < channels,
            i >= 0,
            channels > 0,
    ;
    assert(q < frames) by (nonlinear_arith)
        requires
            q * channels + i % channels == i,
            0 <= i % channels,
            i < frames * channels,
            channels > 0,
    ;
}

/// Writing the slot of one frame and channel changes no other frame or
/// channel of the region.
pub proof fn lemma_write_is_local(
    region: Seq<Sample>,
    frames: int,
    channels: int,
    frame: int,
    channel: int,
    s: Sample,
    other_frame: int,
    other_channel: int,
)
    requires
        region.len() == frames * channels,
        0 <= frame < frames,
        0 <= other_frame < frames,
        0 <= channel < channels,
        0 <= other_channel < channels,
        frame != other_frame || channel != other_channel,
    ensures
        region.update(slot(frame, channel, channels), s)[slot(
            other_frame,
            other_channel,
            channels,
        )] == region[slot(other_frame, other_channel, channels)],
        region.update(slot(frame, channel, channels), s)[slot(frame, channel, channels)] == s,
{
    lemma_slot_in_region(frame, channel, frames, channels);
    lemma_slot_in_region(other_frame, other_channel, frames, channels);
    lemma_slots_distinct(frame, channel, other_frame, other_channel, frames, channels);
}

/// The input and output regions of one block.
///
/// The two regions are separate buffers, so nothing written to the output
/// can reach the input. Both always hold `frames * channels` samples.
pub struct AudioBlock {
    context: RenderContext,
    input: Vec<Sample>,
    output: Vec<Sample>,
}

impl AudioBlock {
    /// The block's metadata.
    pub closed spec fn ctx(&self) -> RenderContext {
        self.context
    }

    /// The samples of the input region.
    pub closed spec fn input_view(&self) -> Seq<Sample> {
        self.input@
    }

    /// The samples of the output region.
    pub closed spec fn output_view(&self) -> Seq<Sample> {
        self.output@
    }

    /// Each region holds exactly `frames * channels` samples.
    pub open spec fn wf(&self) -> bool {
        lengths_match(self.ctx(), self.input_view().len(), self.output_view().len())
    }

    /// Builds the block over two buffers, after checking them against the
    /// counts in `context`.
    pub fn new(context: RenderContext, input: Vec<Sample>, output: Vec<Sample>) -> (made: Result<
        AudioBlock,
        ViewError,
    >)
        ensures
            !counts_fit(context) ==> made == Err::<AudioBlock, ViewError>(ViewError::CountOverflow),
            counts_fit(context) && !lengths_match(context, input@.len(), output@.len()) ==> made
                == Err::<AudioBlock, ViewError>(ViewError::LengthMismatch),
            counts_fit(context) && lengths_match(context, input@.len(), output@.len())
                ==> made.is_ok(),
            made.is_ok() ==> {
                &&& made.unwrap().wf()
                &&& made.unwrap().ctx() == context
                &&& made.unwrap().input_view() == input@
                &&& made.unwrap().output_view() == output@
            },
    {
        let in_len = match context.frames.checked_mul(context.in_channels) {
            Some(n) => n,
            None => { return Err(ViewError::CountOverflow); },
        };
        let out_len = match context.frames.checked_mul(context.out_channels) {
            Some(n) => n,
            None => { return Err(ViewError::CountOverflow); },
        };
        if input.len() != in_len || output.len() != out_len {
            return Err(ViewError::LengthMismatch);
        }
        Ok(AudioBlock { context, input, output })
    }

    /// The block's metadata.
    pub fn context(&self) -> (context: RenderContext)
        ensures
            context == self.ctx(),
    {
        self.context
    }

    /// Number of samples in the input region.
    pub fn input_len(&self) -> (len: usize)
        requires
            self.wf(),
        ensures
            len == self.input_view().len(),
            len == self.ctx().frames * self.ctx().in_channels,
    {
        self.input.len()
    }

    /// Number of samples in the output region.
    pub fn output_len(&self) -> (len: usize)
        requires
            self.wf(),
        ensures
            len == self.output_view().len(),
            len == self.ctx().frames * self.ctx().out_channels,
    {
        self.output.len()
    }

    /// The input sample of one frame and channel.
    pub fn input_sample(&self, frame: usize, channel: usize) -> (s: Sample)
        requires
            self.wf(),
            frame < self.ctx().frames,
            channel < self.ctx().in_channels,
        ensures
            s == self.input_view()[slot(frame as int, channel as int, self.ctx().in_channels as int)],
    {
        proof {
            lemma_slot_in_region(
                frame as int,
                channel as int,
                self.context.frames as int,
                self.context.in_channels as int,
            );
            assert(frame * self.context.in_channels >= 0) by (nonlinear_arith);
        }
        let len: usize = self.input.len();
        assert(frame * self.context.in_channels + channel < len);
        self.input[frame * self.context.in_channels + channel]
    }

    /// The output sample of one frame and channel.
    pub fn output_sample(&self, frame: usize, channel: usize) -> (s: Sample)
        requires
            self.wf(),
            frame < self.ctx().frames,
            channel < self.ctx().out_channels,
        ensures
            s == self.output_view()[slot(
                frame as int,
                channel as int,
                self.ctx().out_channels as int,
            )],
    {
        proof {
            lemma_slot_in_region(
                frame as int,
                channel as int,
                self.context.frames as int,
                self.context.out_channels as int,
            );
            assert(frame * self.context.out_channels >= 0) by (nonlinear_arith);
        }
        let len: usize = self.output.len();
        assert(frame * self.context.out_channels + channel < len);
        self.output[frame * self.context.out_channels + channel]
    }

    /// The samples of one input channel, frame by frame, in a buffer of
    /// their own.
    pub fn input_channel(&self, channel: usize) -> (samples: Vec<Sample>)
        requires
            self.wf(),
            channel < self.ctx().in_channels,
        ensures
            samples@ == channel_of(
                self.input_view(),
                self.ctx().frames as nat,
                self.ctx().in_channels as nat,
                channel as nat,
            ),
    {
        let frames: usize = self.context.frames;
        let mut samples: Vec<Sample> = Vec::new();
        let mut frame: usize = 0;
        while frame < frames
            invariant
                self.wf(),
                frames == self.ctx().frames,
                channel < self.ctx().in_channels,
                frame <= frames,
                samples@.len() == frame,
                forall|f: int|
                    0 <= f < frame ==> samples@[f] == self.input_view()[slot(
                        f,
                        channel as int,
                        self.ctx().in_channels as int,
                    )],
            decreases frames - frame,
        {
            samples.push(self.input_sample(frame, channel));
            frame = frame + 1;
        }
        assert(samples@ =~= channel_of(
            self.input_view(),
            self.ctx().frames as nat,
            self.ctx().in_channels as nat,
            channel as nat,
        ));
        samples
    }

    /// The samples of one output channel, frame by frame, in a buffer of
    /// their own.
    pub fn output_channel(&self, channel: usize) -> (samples: Vec<Sample>)
        requires
            self.wf(),
            channel < self.ctx().out_channels,
        ensures
            samples@ == channel_of(
                self.output_view(),
                self.ctx().frames as nat,
                self.ctx().out_channels as nat,
                channel as nat,
            ),
    {
        let frames: usize = self.context.frames;
        let mut samples: Vec<Sample> = Vec::new();
        let mut frame: usize = 0;
        while frame < frames
            invariant
                self.wf(),
                frames == self.ctx().frames,
                channel < self.ctx().out_channels,
                frame <= frames,
                samples@.len() == frame,
                forall|f: int|
                    0 <= f < frame ==> samples@[f] == self.output_view()[slot(
                        f,
                        channel as int,
                        self.ctx().out_channels as int,
                    )],
            decreases frames - frame,
        {
            samples.push(self.output_sample(frame, channel));
            frame = frame + 1;
        }
        assert(samples@ =~= channel_of(
            self.output_view(),
            self.ctx().frames as nat,
            self.ctx().out_channels as nat,
            channel as nat,
        ));
        samples
    }

    /// The output sample in slot `i`.
    pub fn output_at(&self, i: usize) -> (s: Sample)
        requires
            self.wf(),
            i < self.output_view().len(),
        ensures
            s == self.output_view()[i as int],
    {
        self.output[i]
    }

    /// Writes one output sample by slot. Nothing else changes.
    pub fn write_at(&mut self, i: usize, s: Sample)
        requires
            old(self).wf(),
            i < old(self).output_view().len(),
        ensures
            final(self).wf(),
            final(self).ctx() == old(self).ctx(),
            final(self).input_view() == old(self).input_view(),
            final(self).output_view() == old(self).output_view().update(i as int, s),
    {
        self.output.set(i, s);
    }

    /// Writes the output sample of one frame and channel. Nothing else
    /// changes: no other frame, no other channel, and nothing of the input.
    pub fn write(&mut self, frame: usize, channel: usize, s: Sample)
        requires
            old(self).wf(),
            frame < old(self).ctx().frames,
            channel < old(self).ctx().out_channels,
        ensures
            final(self).wf(),
            final(self).ctx() == old(self).ctx(),
            final(self).input_view() == old(self).input_view(),
            final(self).output_view() == old(self).output_view().update(
                slot(frame as int, channel as int, old(self).ctx().out_channels as int),
                s,
            ),
    {
        proof {
            lemma_slot_in_region(
                frame as int,
                channel as int,
                self.context.frames as int,
                self.context.out_channels as int,
            );
            assert(frame * self.context.out_channels >= 0) by (nonlinear_arith);
        }
        let len: usize = self.output.len();
        assert(frame * self.context.out_channels + channel < len);
        let i: usize = frame * self.context.out_channels + channel;
        self.output.set(i, s);
    }

    /// Marks the start of the block with sequence number `sequence`. The
    /// counts and both regions stay as they are.
    pub fn begin_block(&mut self, sequence: usize)
        requires
            old(self).wf(),
        ensures
            final(self).wf(),
            final(self).ctx() == (RenderContext { sequence, ..old(self).ctx() }),
            final(self).input_view() == old(self).input_view(),
            final(self).output_view() == old(self).output_view(),
    {
        self.context.sequence = sequence;
    }

    /// The input region.
    pub fn input(&self) -> (samples: &Vec<Sample>)
        ensures
            samples@ == self.input_view(),
    {
        &self.input
    }

    /// The output region.
    pub fn output(&self) -> (samples: &Vec<Sample>)
        ensures
            samples@ == self.output_view(),
    {
        &self.output
    }
}

} // verus!
