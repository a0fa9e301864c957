//! A small framework for interactive audio-effect demos: a control surface
//! drives a real-time audio callback through a one-directional message
//! channel.  This crate holds the audio core: the cross-thread message
//! protocol, the audio-thread state machine (parameter cache, bypass state,
//! playback transport), the backing-track playback buffer with its looping
//! semantics, and the contract a DSP algorithm must satisfy to be driven by
//! the engine.  The crate is generic over the sample type; the surrounding
//! application instantiates it with its native sample format.

use vstd::prelude::*;

pub mod audio_player;
pub mod audio_thread;
pub mod channel;
pub mod clip;
pub mod control;
pub mod style;

pub use audio_player::AudioPlayer;
pub use audio_player::AudioPlayerBuffer;
pub use audio_player::BufferError;
pub use audio_thread::AudioThread;
pub use audio_thread::GuiToAudioMsg;
pub use audio_thread::Param;
pub use audio_thread::ProtocolError;
pub use clip::HardClip;
pub use control::ControlState;
pub use control::DecimalPlaces;
pub use control::Message;
pub use control::OptionKnob;
pub use style::Theme;

verus! {

/// The view handed to a DSP algorithm for one block: read-only input
/// channels, output channels to fill, the current sample rate and a
/// read-only view of the parameter cache.  All four channels hold one
/// sample per frame of the block.
pub struct AudioProcessInfo<S> {
    pub in_l: Vec<S>,
    pub in_r: Vec<S>,
    pub out_l: Vec<S>,
    pub out_r: Vec<S>,
    pub sample_rate: u32,
    pub in_params: Vec<S>,
}

impl<S> AudioProcessInfo<S> {
    /// All four channels hold the same number of frames.
    pub open spec fn wf(self) -> bool {
        &&& self.in_r@.len() == self.in_l@.len()
        &&& self.out_l@.len() == self.in_l@.len()
        &&& self.out_r@.len() == self.in_l@.len()
    }
}

/// The contract a DSP algorithm must satisfy to be driven by the engine.
///
/// An algorithm is a deterministic machine: `spec_process` gives, from its
/// state, the input channels, the sample rate and the parameter values, its
/// next state and the two output channels it writes.  `process_stereo` must
/// behave exactly as `spec_process` says: it writes every output sample of
/// the block (stale output content cannot leak through, since `spec_process`
/// never sees it), reads nothing but its inputs and the parameter view, and
/// leaves them untouched.  `reset`/`host_reset` must reinitialize internal
/// state whenever the host-reported sample rate changes, before any further
/// processing.
pub trait DSPBoxApp<S>: Sized {
    /// The algorithm's state after its reset hook ran for a sample-rate
    /// change.  The default says the reset changes nothing, which fits a
    /// stateless algorithm; stateful algorithms override it.
    open spec fn spec_reset(self, sample_rate: u32) -> Self {
        self
    }

    /// The algorithm as a mathematical function: next state, left output
    /// channel, right output channel.  The default describes a stateless
    /// pass-through; every algorithm verified in this crate overrides it
    /// with what it actually computes.  An implementation outside this
    /// crate is not verified against it: what is proved through this trait
    /// holds of implementations that were.
    open spec fn spec_process(
        self,
        in_l: Seq<S>,
        in_r: Seq<S>,
        sample_rate: u32,
        params: Seq<S>,
    ) -> (Self, Seq<S>, Seq<S>) {
        (self, in_l, in_r)
    }

    /// Reinitializes internal state for a new sample rate.
    fn host_reset(&mut self, sample_rate: u32)
        ensures
            *final(self) == old(self).spec_reset(sample_rate),
    ;

    /// Processes one stereo block, exactly as `spec_process` describes.
    fn process_stereo(&mut self, proc_info: &mut AudioProcessInfo<S>)
        requires
            old(proc_info).wf(),
        ensures
            final(proc_info).wf(),
            final(proc_info).in_l@ == old(proc_info).in_l@,
            final(proc_info).in_r@ == old(proc_info).in_r@,
            final(proc_info).in_params@ == old(proc_info).in_params@,
            final(proc_info).sample_rate == old(proc_info).sample_rate,
            final(proc_info).out_l@.len() == old(proc_info).out_l@.len(),
            final(proc_info).out_r@.len() == old(proc_info).out_r@.len(),
            ({
                let (next, out_l, out_r) = old(self).spec_process(
                    old(proc_info).in_l@,
                    old(proc_info).in_r@,
                    old(proc_info).sample_rate,
                    old(proc_info).in_params@,
                );
                &&& *final(self) == next
                &&& final(proc_info).out_l@ == out_l
                &&& final(proc_info).out_r@ == out_r
            }),
    ;
}

} // verus!
