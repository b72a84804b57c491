//! The channel processor: which banks it owns, and how a block of audio is
//! dispatched to them.

use vstd::prelude::*;
use crate::filterbank::{makes_every_stage, FilterBank};
use crate::rate::{rate_is_valid, SampleRate};

verus! {

/// How the channels of a block are processed.
#[derive(Clone, Copy, Debug, PartialEq, Eq)]
pub enum ProcessingMode {
    /// All channels are mixed down to their mean, the shared bank runs once
    /// per frame, and the result is written back to every channel.
    Mono,
    /// Every channel runs through a bank of its own.
    Multi,
}

/// What is to be done with a block.
#[derive(Clone, Copy, Debug, PartialEq, Eq)]
pub enum BlockPlan {
    /// There is nothing to process: the block has no channels or no frames.
    Idle,
    /// Run the shared bank once per frame. The master gain advances once per
    /// frame.
    Mono,
    /// Run channel `c` through the bank at position `c`. The master gain
    /// advances once for the whole block.
    Multi {
        /// Whether the banks had to be built anew because their number did
        /// not match the number of channels.
        rebuilt: bool,
    },
}

/// The plan for a block of `frames` frames on `channels` channels in `mode`,
/// for a processor that owns `owned` per-channel banks.
pub open spec fn plan_of(
    mode: ProcessingMode,
    channels: int,
    frames: int,
    owned: int,
) -> BlockPlan {
    if channels == 0 || frames == 0 {
        BlockPlan::Idle
    } else {
        match mode {
            ProcessingMode::Mono => BlockPlan::Mono,
            ProcessingMode::Multi => BlockPlan::Multi { rebuilt: owned != channels },
        }
    }
}

/// The banks behind an effect instance: one shared bank for mono processing
/// and one bank per channel for independent processing, all built for the
/// same sample rate.
pub struct ChannelProcessor<S, W> {
    /// The sample rate that every bank was built for.
    pub rate: SampleRate,
    /// The bank that mono processing runs.
    pub shared: FilterBank<S, W>,
    /// The banks that multi-channel processing runs, one per channel; no bank
    /// is ever shared between channels.
    pub per_channel: Vec<FilterBank<S, W>>,
}

impl<S: Copy, W: Copy> ChannelProcessor<S, W> {
    /// Every bank that the processor owns is well formed.
    pub open spec fn wf(&self) -> bool {
        &&& self.shared.wf()
        &&& forall|c: int|
            0 <= c < self.per_channel@.len() ==> (#[trigger] self.per_channel@[c]).wf()
    }

    /// Whether the processor is as `new` leaves it: it runs at `rate`, owns
    /// `channels` per-channel banks, and each of its banks is freshly built by
    /// `make` with the weights `gains`.
    pub open spec fn fresh<F: Fn(u8, SampleRate) -> S>(
        &self,
        rate: SampleRate,
        channels: int,
        gains: Seq<W>,
        make: &F,
    ) -> bool {
        &&& self.rate == rate
        &&& self.shared.built_by(rate, gains, make)
        &&& self.per_channel@.len() == channels
        &&& forall|c: int|
            0 <= c < channels ==> (#[trigger] self.per_channel@[c]).built_by(rate, gains, make)
    }

    /// Builds `channels` fresh banks for `rate`.
    fn build_banks<F: Fn(u8, SampleRate) -> S>(
        rate: SampleRate,
        channels: usize,
        gains: [W; 12],
        make: &F,
    ) -> (banks: Vec<FilterBank<S, W>>)
        requires
            makes_every_stage(make, rate),
        ensures
            banks@.len() == channels,
            forall|c: int|
                0 <= c < channels ==> (#[trigger] banks@[c]).built_by(rate, gains@, make),
    {
        let mut banks: Vec<FilterBank<S, W>> = Vec::new();
        let mut c: usize = 0;
        while c < channels
            invariant
                c <= channels,
                banks@.len() == c,
                makes_every_stage(make, rate),
                forall|k: int| 0 <= k < c ==> (#[trigger] banks@[k]).built_by(rate, gains@, make),
            decreases channels - c,
        {
            banks.push(FilterBank::new(rate, gains, make));
            c = c + 1;
        }
        banks
    }

    /// Builds a processor for `rate` with one shared bank and `channels`
    /// per-channel banks, every stage made by `make` and every weight vector
    /// set to `gains`.
    pub fn new<F: Fn(u8, SampleRate) -> S>(
        rate: SampleRate,
        channels: usize,
        gains: [W; 12],
        make: &F,
    ) -> (processor: Self)
        requires
            makes_every_stage(make, rate),
        ensures
            processor.fresh(rate, channels as int, gains@, make),
            processor.wf(),
    {
        ChannelProcessor {
            rate,
            shared: FilterBank::new(rate, gains, make),
            per_channel: Self::build_banks(rate, channels, gains, make),
        }
    }

    /// Prepares the processor for a stream at the sample rate whose
    /// single-precision pattern is `rate_bits`, on `channels` channels.
    ///
    /// Succeeds exactly when the rate is positive and finite, and then every
    /// bank is rebuilt for the new rate, which discards all filter memory. A
    /// rate that is refused leaves the processor as it was.
    pub fn initialize<F: Fn(u8, SampleRate) -> S>(
        &mut self,
        rate_bits: u32,
        channels: usize,
        gains: [W; 12],
        make: &F,
    ) -> (success: bool)
        requires
            old(self).wf(),
            forall|rate: SampleRate| rate@ == rate_bits ==> makes_every_stage(make, rate),
        ensures
            success == rate_is_valid(rate_bits),
            final(self).wf(),
            !success ==> *final(self) == *old(self),
            success ==> final(self).rate@ == rate_bits && final(self).fresh(
                final(self).rate,
                channels as int,
                gains@,
                make,
            ),
    {
        match SampleRate::from_bits(rate_bits) {
            Ok(rate) => {
                *self = Self::new(rate, channels, gains, make);
                true
            },
            Err(_) => false,
        }
    }

    /// Rebuilds every bank for the current sample rate, which zeroes the state
    /// of every stage. The number of per-channel banks stays as it is.
    pub fn reset<F: Fn(u8, SampleRate) -> S>(&mut self, gains: [W; 12], make: &F)
        requires
            old(self).wf(),
            makes_every_stage(make, old(self).rate),
        ensures
            final(self).wf(),
            final(self).fresh(
                old(self).rate,
                old(self).per_channel@.len() as int,
                gains@,
                make,
            ),
    {
        let channels = self.per_channel.len();
        *self = Self::new(self.rate, channels, gains, make);
    }

    /// Decides what is to be done with a block of `frames` frames on
    /// `channels` channels, and brings the banks concerned up to date for it.
    ///
    /// A block without channels or without frames changes nothing. In mono
    /// mode the shared bank takes the weights `gains`. In multi mode the
    /// per-channel banks are built anew if their number differs from
    /// `channels`, and kept with their memory otherwise; either way all of
    /// them carry the weights `gains` afterwards. Weights are only ever
    /// replaced here, before the first frame of the block.
    pub fn begin_block<F: Fn(u8, SampleRate) -> S>(
        &mut self,
        mode: ProcessingMode,
        channels: usize,
        frames: usize,
        gains: [W; 12],
        make: &F,
    ) -> (plan: BlockPlan)
        requires
            old(self).wf(),
            makes_every_stage(make, old(self).rate),
        ensures
            plan == plan_of(
                mode,
                channels as int,
                frames as int,
                old(self).per_channel@.len() as int,
            ),
            final(self).wf(),
            final(self).rate == old(self).rate,
            plan is Idle ==> *final(self) == *old(self),
            plan is Mono ==> {
                &&& final(self).shared.weights() == gains@
                &&& final(self).shared.stages() == old(self).shared.stages()
                &&& final(self).per_channel == old(self).per_channel
            },
            plan matches BlockPlan::Multi { rebuilt } ==> {
                &&& final(self).shared == old(self).shared
                &&& final(self).per_channel@.len() == channels
                &&& forall|c: int|
                    0 <= c < channels ==> (#[trigger] final(self).per_channel@[c]).weights()
                        == gains@
                &&& rebuilt ==> forall|c: int|
                    0 <= c < channels ==> (#[trigger] final(self).per_channel@[c]).built_by(
                        old(self).rate,
                        gains@,
                        make,
                    )
                &&& !rebuilt ==> forall|c: int|
                    0 <= c < channels ==> (#[trigger] final(self).per_channel@[c]).stages()
                        == old(self).per_channel@[c].stages()
            },
    {
        if channels == 0 || frames == 0 {
            return BlockPlan::Idle;
        }
        match mode {
            ProcessingMode::Mono => {
                self.shared.set_gains(gains);
                BlockPlan::Mono
            },
            ProcessingMode::Multi => {
                let rebuilt = self.per_channel.len() != channels;
                if rebuilt {
                    self.per_channel = Self::build_banks(self.rate, channels, gains, make);
                } else {
                    let ghost before = self.per_channel@;
                    let mut c: usize = 0;
                    while c < channels
                        invariant
                            c <= channels,
                            self.per_channel@.len() == channels,
                            before.len() == channels,
                            self.shared == old(self).shared,
                            self.rate == old(self).rate,
                            forall|k: int|
                                0 <= k < channels ==> (#[trigger] self.per_channel@[k]).wf(),
                            forall|k: int|
                                0 <= k < channels ==> (#[trigger] self.per_channel@[k]).stages()
                                    == before[k].stages(),
                            forall|k: int|
                                0 <= k < c ==> (#[trigger] self.per_channel@[k]).weights()
                                    == gains@,
                        decreases channels - c,
                    {
                        self.per_channel[c].set_gains(gains);
                        c = c + 1;
                    }
                }
                BlockPlan::Multi { rebuilt }
            },
        }
    }
}

} // verus!
