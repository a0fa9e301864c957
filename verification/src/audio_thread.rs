//! The audio-thread state machine: the parameter cache, bypass state and
//! playback transport, driven by messages from the control thread and
//! drained once per processing callback.
//!
//! Everything the control thread wants changed travels through a
//! [`GuiToAudioMsg`]; the engine applies the drained messages strictly in
//! send order.  `apply_msg` and `apply_msgs` are the mathematical statement
//! of that application, and every mutating engine operation is specified
//! against them.

use vstd::prelude::*;

use std::sync::mpsc::Receiver;

use crate::audio_player::copy_samples;
use crate::audio_player::AudioPlayer;
use crate::audio_player::AudioPlayerBuffer;
use crate::audio_player::PlayerModel;
use crate::audio_player::advance_start;
use crate::audio_player::next_cursor;
use crate::audio_player::player_load;
use crate::audio_player::player_pause;
use crate::audio_player::player_play;
use crate::audio_player::player_stop;
use crate::audio_player::player_wf;
use crate::channel::drain_pending;
use crate::AudioProcessInfo;
use crate::DSPBoxApp;

verus! {

/// One parameter intent: which parameter, and its new value.  Identity is
/// the id; ids are assigned densely from zero at setup time and index the
/// parameter cache directly.
#[derive(Clone, Copy)]
pub struct Param<S> {
    pub id: u32,
    pub value: S,
}

/// A control-thread intent, consumed exactly once by the audio thread, in
/// send order.
pub enum GuiToAudioMsg<S> {
    /// Overwrite one cached parameter value.
    ParamChanged(Param<S>),
    /// Replace the parameter cache wholesale and mark it initialized.
    InitPreset(Vec<Param<S>>),
    /// Attach a backing-track buffer to the transport; ownership moves to
    /// the audio thread.
    LoadAudioPlayerBuffer(AudioPlayerBuffer<S>),
    /// Start the transport, if a buffer is attached.
    Play,
    /// Pause the transport, retaining the cursor.
    Pause,
    /// Stop the transport and rewind to frame zero.
    Stop,
    /// Pass input to output unmodified, skipping the DSP algorithm.
    Bypass,
    /// Resume normal processing.
    Unbypass,
    /// Reserved as an extension point; currently applied as a no-op.
    Panic,
}

/// A protocol violation: a setup or integration bug, detected on the audio
/// thread and reported to the caller so it can fail fast.  These are not
/// runtime conditions to recover from.
#[derive(Clone, Copy, Debug, PartialEq, Eq, Structural)]
pub enum ProtocolError {
    /// A `ParamChanged` message named an id outside the parameter cache.
    ParamIdOutOfRange,
    /// The attached buffer is shorter than the block being processed.
    BufferTooShort,
}

impl ProtocolError {
    /// A human-readable reason, for reporting the failure before aborting.
    pub fn reason(&self) -> &'static str {
        match self {
            ProtocolError::ParamIdOutOfRange => "parameter id is outside the parameter cache",
            ProtocolError::BufferTooShort => "backing track is shorter than the processing block",
        }
    }
}

/// Mathematical view of the engine state a message can reach: the
/// parameter cache, the flags, and the transport.  The DSP algorithm's own
/// state stands beside this, not in it.
#[verifier::ext_equal]
pub ghost struct EngineModel<S> {
    pub sample_rate: u32,
    pub host_reset_pending: bool,
    pub params: Seq<S>,
    pub preset_initialized: bool,
    pub bypassed: bool,
    pub player: PlayerModel<S>,
}

/// The values of a parameter list, in list order.
pub open spec fn param_values<S>(ps: Seq<Param<S>>) -> Seq<S> {
    ps.map(|i: int, p: Param<S>| p.value)
}

/// Whether a message is valid against the current engine state.  The only
/// way a message can be invalid is a `ParamChanged` whose id lies outside
/// the parameter cache: a protocol bug, fatal by design.
pub open spec fn msg_valid<S>(m: EngineModel<S>, msg: GuiToAudioMsg<S>) -> bool {
    match msg {
        GuiToAudioMsg::ParamChanged(p) => p.id < m.params.len(),
        _ => true,
    }
}

/// The effect of one message on the engine state.
pub open spec fn apply_msg<S>(m: EngineModel<S>, msg: GuiToAudioMsg<S>) -> EngineModel<S> {
    match msg {
        GuiToAudioMsg::ParamChanged(p) => EngineModel {
            params: m.params.update(p.id as int, p.value),
            ..m
        },
        GuiToAudioMsg::InitPreset(ps) => EngineModel {
            params: param_values(ps@),
            preset_initialized: true,
            ..m
        },
        GuiToAudioMsg::LoadAudioPlayerBuffer(b) => EngineModel {
            player: player_load(m.player, b.model()),
            ..m
        },
        GuiToAudioMsg::Play => EngineModel { player: player_play(m.player), ..m },
        GuiToAudioMsg::Pause => EngineModel { player: player_pause(m.player), ..m },
        GuiToAudioMsg::Stop => EngineModel { player: player_stop(m.player), ..m },
        GuiToAudioMsg::Bypass => EngineModel { bypassed: true, ..m },
        GuiToAudioMsg::Unbypass => EngineModel { bypassed: false, ..m },
        GuiToAudioMsg::Panic => m,
    }
}

/// The sequential application of a whole message sequence, in order: the
/// ordering property every drain is specified against.
pub open spec fn apply_msgs<S>(m: EngineModel<S>, msgs: Seq<GuiToAudioMsg<S>>) -> EngineModel<S>
    decreases msgs.len(),
{
    if msgs.len() == 0 {
        m
    } else {
        apply_msgs(apply_msg(m, msgs[0]), msgs.drop_first())
    }
}

/// Whether every message of a sequence is valid in the state its
/// predecessors produce.
pub open spec fn msgs_valid<S>(m: EngineModel<S>, msgs: Seq<GuiToAudioMsg<S>>) -> bool
    decreases msgs.len(),
{
    if msgs.len() == 0 {
        true
    } else {
        msg_valid(m, msgs[0]) && msgs_valid(apply_msg(m, msgs[0]), msgs.drop_first())
    }
}

/// Appending one message to a drain applies it to the state the earlier
/// messages produced.
pub proof fn lemma_apply_msgs_snoc<S>(
    m: EngineModel<S>,
    msgs: Seq<GuiToAudioMsg<S>>,
    msg: GuiToAudioMsg<S>,
)
    ensures
        apply_msgs(m, msgs.push(msg)) == apply_msg(apply_msgs(m, msgs), msg),
        msgs_valid(m, msgs.push(msg)) <==> msgs_valid(m, msgs) && msg_valid(
            apply_msgs(m, msgs),
            msg,
        ),
    decreases msgs.len(),
{
    if msgs.len() == 0 {
        assert(msgs.push(msg)[0] == msg);
        assert(msgs.push(msg).drop_first() =~= msgs);
        assert(apply_msgs(m, msgs) == m);
        assert(apply_msgs(apply_msg(m, msg), msgs) == apply_msg(m, msg));
        assert(msgs_valid(m, msgs));
        assert(msgs_valid(apply_msg(m, msg), msgs));
    } else {
        assert(msgs.push(msg)[0] == msgs[0]);
        assert(msgs.push(msg).drop_first() =~= msgs.drop_first().push(msg));
        lemma_apply_msgs_snoc(apply_msg(m, msgs[0]), msgs.drop_first(), msg);
    }
}

/// Messages never touch what the host reports: the sample rate and the
/// pending-reset flag belong to the driver boundary, not to the protocol.
pub proof fn lemma_apply_msgs_keeps_host_fields<S>(
    m: EngineModel<S>,
    msgs: Seq<GuiToAudioMsg<S>>,
)
    ensures
        apply_msgs(m, msgs).sample_rate == m.sample_rate,
        apply_msgs(m, msgs).host_reset_pending == m.host_reset_pending,
    decreases msgs.len(),
{
    if msgs.len() > 0 {
        lemma_apply_msgs_keeps_host_fields(apply_msg(m, msgs[0]), msgs.drop_first());
    }
}

/// Whether a message sequence holds an `InitPreset`.
pub open spec fn has_init_preset<S>(msgs: Seq<GuiToAudioMsg<S>>) -> bool {
    exists|i: int| 0 <= i < msgs.len() && msgs[i] is InitPreset
}

/// The no-preset law: as long as no `InitPreset` message has arrived, the
/// parameter cache stays uninitialized, so processing stays a no-op.
pub proof fn lemma_no_init_preset_stays_uninitialized<S>(
    m: EngineModel<S>,
    msgs: Seq<GuiToAudioMsg<S>>,
)
    requires
        !m.preset_initialized,
        !has_init_preset(msgs),
    ensures
        !apply_msgs(m, msgs).preset_initialized,
    decreases msgs.len(),
{
    if msgs.len() > 0 {
        assert(!(msgs[0] is InitPreset));
        assert(!has_init_preset(msgs.drop_first())) by {
            if has_init_preset(msgs.drop_first()) {
                let i = choose|i: int|
                    0 <= i < msgs.drop_first().len() && msgs.drop_first()[i] is InitPreset;
                assert(msgs[i + 1] is InitPreset);
            }
        }
        lemma_no_init_preset_stays_uninitialized(apply_msg(m, msgs[0]), msgs.drop_first());
    }
}

/// The bypass round-trip law: a `Bypass` followed by an `Unbypass`, with
/// nothing in between, leaves the whole engine state as it was apart from
/// clearing the bypass flag — and exactly as it was if the engine was not
/// bypassed before.  Since the engine's processing output is a function of
/// this state, the DSP algorithm's state and the block inputs, processing
/// resumes exactly as before the round trip.
pub proof fn lemma_bypass_round_trip<S>(m: EngineModel<S>)
    ensures
        apply_msgs(m, seq![GuiToAudioMsg::<S>::Bypass, GuiToAudioMsg::<S>::Unbypass]) == (
        EngineModel { bypassed: false, ..m }),
        !m.bypassed ==> apply_msgs(m, seq![GuiToAudioMsg::<S>::Bypass, GuiToAudioMsg::<S>::Unbypass])
            == m,
{
    let s = seq![GuiToAudioMsg::<S>::Bypass, GuiToAudioMsg::<S>::Unbypass];
    let m1 = apply_msg(m, GuiToAudioMsg::<S>::Bypass);
    let m2 = apply_msg(m1, GuiToAudioMsg::<S>::Unbypass);
    assert(s[0] == GuiToAudioMsg::<S>::Bypass);
    assert(s.drop_first()[0] == GuiToAudioMsg::<S>::Unbypass);
    assert(s.drop_first() =~= seq![GuiToAudioMsg::<S>::Unbypass]);
    assert(s.drop_first().drop_first() =~= Seq::<GuiToAudioMsg<S>>::empty());
    assert(apply_msgs(m, s) == apply_msgs(m1, s.drop_first()));
    assert(apply_msgs(m2, s.drop_first().drop_first()) == m2);
    assert(apply_msgs(m1, s.drop_first()) == m2);
    assert(m2 =~= (EngineModel { bypassed: false, ..m }));
    assert(!m.bypassed ==> (EngineModel { bypassed: false, ..m }) =~= m);
}

/// The engine model once a pending host reset has been honoured.
pub open spec fn clear_reset<S>(m: EngineModel<S>) -> EngineModel<S> {
    EngineModel { host_reset_pending: false, ..m }
}

/// The inputs one block of processing works on: when the transport is
/// playing an attached backing track, its next window replaces the
/// host-supplied input for the whole block; otherwise the host input
/// passes through.
pub open spec fn substituted_inputs<S>(m: EngineModel<S>, in_l: Seq<S>, in_r: Seq<S>, n: nat) -> (
    Seq<S>,
    Seq<S>,
) {
    if m.player.playing && m.player.buffer is Some {
        let b = m.player.buffer->Some_0;
        let start = advance_start(m.player.cursor, n, b.left.len());
        (b.left.subrange(start as int, start + n as int), b.right.subrange(
            start as int,
            start + n as int,
        ))
    } else {
        (in_l, in_r)
    }
}

/// The transport after one block: advanced by the block size when it was
/// playing an attached backing track, untouched otherwise.
pub open spec fn player_after_block<S>(m: EngineModel<S>, n: nat) -> PlayerModel<S> {
    if m.player.playing && m.player.buffer is Some {
        PlayerModel {
            cursor: next_cursor(m.player.cursor, n, m.player.buffer->Some_0.left.len()),
            ..m.player
        }
    } else {
        m.player
    }
}

/// What one block of processing does, once the drained messages have been
/// applied: from the engine state, the algorithm state, the host-supplied
/// inputs and the outputs as the caller provided them, to the engine state,
/// the algorithm state and the outputs after the block.  Until a preset has
/// arrived nothing happens; a playing backing track replaces the input and
/// the transport advances; a bypassed engine copies its input through;
/// otherwise the algorithm runs.
pub open spec fn block_outcome<S, A: DSPBoxApp<S>>(
    m: EngineModel<S>,
    d: A,
    in_l: Seq<S>,
    in_r: Seq<S>,
    out_l: Seq<S>,
    out_r: Seq<S>,
) -> (EngineModel<S>, A, Seq<S>, Seq<S>) {
    let n = out_l.len();
    if !m.preset_initialized {
        (m, d, out_l, out_r)
    } else {
        let subst = substituted_inputs(m, in_l, in_r, n);
        let m2 = EngineModel { player: player_after_block(m, n), ..m };
        if m.bypassed {
            (m2, d, subst.0, subst.1)
        } else {
            let (d2, ol, or) = d.spec_process(subst.0, subst.1, m.sample_rate, m.params);
            (m2, d2, ol, or)
        }
    }
}

/// Overwrites a channel with new sample values of the same length.
fn overwrite<S: Copy>(dst: &mut Vec<S>, src: &Vec<S>)
    requires
        old(dst)@.len() == src@.len(),
    ensures
        final(dst)@ == src@,
{
    let n = src.len();
    let mut i: usize = 0;
    while i < n
        invariant
            i <= n,
            n == src@.len(),
            dst@.len() == n,
            forall|j: int| 0 <= j < i ==> dst@[j] == src@[j],
        decreases n - i,
    {
        dst.set(i, src[i]);
        i = i + 1;
    }
    proof {
        assert(dst@ =~= src@);
    }
}

/// The bypass round-trip law at the processing level: for an engine that
/// was not bypassed, draining `Bypass` then `Unbypass` with nothing in
/// between changes nothing about the next block — the engine state, the
/// algorithm state and both output channels come out exactly as they would
/// have without the round trip.
pub proof fn lemma_bypass_round_trip_block<S, A: DSPBoxApp<S>>(
    m: EngineModel<S>,
    d: A,
    in_l: Seq<S>,
    in_r: Seq<S>,
    out_l: Seq<S>,
    out_r: Seq<S>,
)
    requires
        !m.bypassed,
    ensures
        block_outcome(
            apply_msgs(m, seq![GuiToAudioMsg::<S>::Bypass, GuiToAudioMsg::<S>::Unbypass]),
            d,
            in_l,
            in_r,
            out_l,
            out_r,
        ) == block_outcome(m, d, in_l, in_r, out_l, out_r),
{
    lemma_bypass_round_trip::<S>(m);
}

/// The engine state before the host reported anything and before any
/// message arrived: silent, empty, stopped.
pub open spec fn initial_engine<S>() -> EngineModel<S> {
    EngineModel {
        sample_rate: 0,
        host_reset_pending: false,
        params: Seq::empty(),
        preset_initialized: false,
        bypassed: false,
        player: PlayerModel { cursor: 0, playing: false, buffer: None },
    }
}

/// The audio-thread state machine.  It owns the parameter cache, the
/// playback transport, the bypass and preset flags, the DSP algorithm
/// instance, and the receiving half of the message channel; the control
/// thread reaches all of it only through messages.
#[verifier::reject_recursive_types(S)]
pub struct AudioThread<S, A: DSPBoxApp<S>> {
    sample_rate: u32,
    dsp_app: A,
    gui_to_audio_rx: Receiver<GuiToAudioMsg<S>>,
    host_did_reset: bool,
    in_params: Vec<S>,
    audio_player: AudioPlayer<S>,
    did_init_preset: bool,
    bypassed: bool,
}

impl<S: Copy, A: DSPBoxApp<S>> AudioThread<S, A> {
    /// The message-reachable engine state as a mathematical value.
    pub closed spec fn model(self) -> EngineModel<S> {
        EngineModel {
            sample_rate: self.sample_rate,
            host_reset_pending: self.host_did_reset,
            params: self.in_params@,
            preset_initialized: self.did_init_preset,
            bypassed: self.bypassed,
            player: self.audio_player.model(),
        }
    }

    /// The DSP algorithm instance's state.
    pub closed spec fn dsp(self) -> A {
        self.dsp_app
    }

    /// The engine invariant: the transport is sound.
    pub open spec fn wf(self) -> bool {
        player_wf(self.model().player)
    }

    /// A fresh engine around a DSP algorithm and the receiving half of the
    /// message channel.
    pub fn new(dsp_app: A, gui_to_audio_rx: Receiver<GuiToAudioMsg<S>>) -> (r: Self)
        ensures
            r.wf(),
            r.dsp() == dsp_app,
            r.model() == initial_engine::<S>(),
    {
        let t = AudioThread {
            sample_rate: 0,
            dsp_app,
            gui_to_audio_rx,
            host_did_reset: false,
            in_params: Vec::new(),
            audio_player: AudioPlayer::new(),
            did_init_preset: false,
            bypassed: false,
        };
        proof {
            assert(t.model() =~= initial_engine::<S>());
        }
        t
    }

    /// Records a host-reported sample-rate change.  The DSP algorithm's
    /// reset hook is then invoked once, at the start of the next processing
    /// call, never mid-block.
    pub fn host_reset(&mut self, sample_rate: u32)
        requires
            old(self).wf(),
        ensures
            final(self).wf(),
            final(self).dsp() == old(self).dsp(),
            final(self).model() == (EngineModel {
                sample_rate: sample_rate,
                host_reset_pending: true,
                ..old(self).model()
            }),
    {
        self.sample_rate = sample_rate;
        self.host_did_reset = true;
        proof {
            assert(self.model() =~= (EngineModel {
                sample_rate: sample_rate,
                host_reset_pending: true,
                ..old(self).model()
            }));
        }
    }

    /// The parameter cache, for inspection from the owning thread.
    pub fn params(&self) -> (r: &Vec<S>)
        ensures
            r@ == self.model().params,
    {
        &self.in_params
    }

    /// Applies one message, exactly as `apply_msg` says, or reports the
    /// protocol violation and leaves the state untouched.
    fn apply_message(&mut self, msg: GuiToAudioMsg<S>) -> (r: Result<(), ProtocolError>)
        requires
            old(self).wf(),
        ensures
            final(self).wf(),
            final(self).dsp() == old(self).dsp(),
            match r {
                Ok(()) => msg_valid(old(self).model(), msg) && final(self).model() == apply_msg(
                    old(self).model(),
                    msg,
                ),
                Err(e) => {
                    &&& e == ProtocolError::ParamIdOutOfRange
                    &&& !msg_valid(old(self).model(), msg)
                    &&& *final(self) == *old(self)
                },
            },
    {
        match msg {
            GuiToAudioMsg::ParamChanged(p) => {
                let id = p.id as usize;
                if id < self.in_params.len() {
                    self.in_params.set(id, p.value);
                    proof {
                        assert(self.model() =~= apply_msg(
                            old(self).model(),
                            GuiToAudioMsg::ParamChanged(p),
                        ));
                    }
                    Ok(())
                } else {
                    Err(ProtocolError::ParamIdOutOfRange)
                }
            },
            GuiToAudioMsg::InitPreset(ps) => {
                self.in_params.clear();
                let mut i: usize = 0;
                while i < ps.len()
                    invariant
                        i <= ps.len(),
                        self.in_params@.len() == i,
                        forall|j: int| 0 <= j < i ==> self.in_params@[j] == ps@[j].value,
                        self.sample_rate == old(self).sample_rate,
                        self.dsp_app == old(self).dsp_app,
                        self.host_did_reset == old(self).host_did_reset,
                        self.audio_player == old(self).audio_player,
                        self.did_init_preset == old(self).did_init_preset,
                        self.bypassed == old(self).bypassed,
                    decreases ps.len() - i,
                {
                    let p = ps[i];
                    self.in_params.push(p.value);
                    i = i + 1;
                }
                self.did_init_preset = true;
                proof {
                    assert(self.in_params@ =~= param_values(ps@));
                    assert(self.model() =~= apply_msg(
                        old(self).model(),
                        GuiToAudioMsg::InitPreset(ps),
                    ));
                }
                Ok(())
            },
            GuiToAudioMsg::LoadAudioPlayerBuffer(buffer) => {
                let ghost b = buffer;
                self.audio_player.load_buffer(buffer);
                proof {
                    assert(self.model() =~= apply_msg(
                        old(self).model(),
                        GuiToAudioMsg::LoadAudioPlayerBuffer(b),
                    ));
                }
                Ok(())
            },
            GuiToAudioMsg::Play => {
                self.audio_player.play();
                proof {
                    assert(self.model() =~= apply_msg(old(self).model(), GuiToAudioMsg::Play));
                }
                Ok(())
            },
            GuiToAudioMsg::Pause => {
                self.audio_player.pause();
                proof {
                    assert(self.model() =~= apply_msg(old(self).model(), GuiToAudioMsg::Pause));
                }
                Ok(())
            },
            GuiToAudioMsg::Stop => {
                self.audio_player.stop();
                proof {
                    assert(self.model() =~= apply_msg(old(self).model(), GuiToAudioMsg::Stop));
                }
                Ok(())
            },
            GuiToAudioMsg::Bypass => {
                self.bypassed = true;
                proof {
                    assert(self.model() =~= apply_msg(old(self).model(), GuiToAudioMsg::Bypass));
                }
                Ok(())
            },
            GuiToAudioMsg::Unbypass => {
                self.bypassed = false;
                proof {
                    assert(self.model() =~= apply_msg(old(self).model(), GuiToAudioMsg::Unbypass));
                }
                Ok(())
            },
            GuiToAudioMsg::Panic => {
                Ok(())
            },
        }
    }

    /// Applies a whole batch of messages, strictly in order: afterwards the
    /// engine state is the sequential application of each message's effect,
    /// in send order.  On the first invalid message the engine stops,
    /// keeps the state the valid prefix produced, and reports the protocol
    /// violation.
    #[verifier::loop_isolation(false)]
    pub fn apply_messages(&mut self, msgs: Vec<GuiToAudioMsg<S>>) -> (r: Result<
        (),
        ProtocolError,
    >)
        requires
            old(self).wf(),
        ensures
            final(self).wf(),
            final(self).dsp() == old(self).dsp(),
            match r {
                Ok(()) => msgs_valid(old(self).model(), msgs@) && final(self).model() == apply_msgs(
                    old(self).model(),
                    msgs@,
                ),
                Err(e) => {
                    &&& e == ProtocolError::ParamIdOutOfRange
                    &&& exists|k: int|
                        {
                            &&& 0 <= k < msgs@.len()
                            &&& #[trigger] msgs_valid(old(self).model(), msgs@.subrange(0, k))
                            &&& !msg_valid(
                                apply_msgs(old(self).model(), msgs@.subrange(0, k)),
                                msgs@[k],
                            )
                            &&& final(self).model() == apply_msgs(
                                old(self).model(),
                                msgs@.subrange(0, k),
                            )
                        }
                },
            },
    {
        let ghost m0 = self.model();
        let ghost d0 = self.dsp();
        let ghost all = msgs@;
        let mut rest = msgs;
        let ghost mut done: Seq<GuiToAudioMsg<S>> = Seq::empty();
        while rest.len() > 0
            invariant
                self.wf(),
                self.dsp() == d0,
                msgs_valid(m0, done),
                self.model() == apply_msgs(m0, done),
                all == done + rest@,
            decreases rest.len(),
        {
            let ghost gmsg = rest@[0];
            let msg = rest.remove(0);
            let r = self.apply_message(msg);
            proof {
                lemma_apply_msgs_snoc(m0, done, gmsg);
            }
            match r {
                Ok(()) => {
                    proof {
                        done = done.push(gmsg);
                        assert(all =~= done + rest@);
                    }
                },
                Err(e) => {
                    proof {
                        let k = done.len() as int;
                        assert(all.subrange(0, k) =~= done);
                        assert(all[k] == gmsg);
                    }
                    return Err(e);
                },
            }
        }
        proof {
            assert(done =~= all);
        }
        Ok(())
    }

    /// Drains the message channel — everything the control thread sent
    /// since the previous drain, in send order — and applies it.  Whatever
    /// the channel held, afterwards the engine state is the sequential
    /// application of some valid message sequence; on a protocol violation
    /// the valid prefix has been applied and the violation is reported.
    pub fn poll_gui_messages(&mut self) -> (r: Result<(), ProtocolError>)
        requires
            old(self).wf(),
        ensures
            final(self).wf(),
            final(self).dsp() == old(self).dsp(),
            exists|msgs: Seq<GuiToAudioMsg<S>>|
                (#[trigger] msgs_valid(old(self).model(), msgs)) && final(self).model()
                    == apply_msgs(old(self).model(), msgs),
            match r {
                Ok(()) => true,
                Err(e) => e == ProtocolError::ParamIdOutOfRange,
            },
    {
        let pending = drain_pending(&self.gui_to_audio_rx);
        let ghost pm = pending@;
        let r = self.apply_messages(pending);
        proof {
            match r {
                Ok(()) => {
                    assert(msgs_valid(old(self).model(), pm) && self.model() == apply_msgs(
                        old(self).model(),
                        pm,
                    ));
                },
                Err(e) => {
                    let k = choose|k: int|
                        {
                            &&& 0 <= k < pm.len()
                            &&& #[trigger] msgs_valid(old(self).model(), pm.subrange(0, k))
                            &&& !msg_valid(
                                apply_msgs(old(self).model(), pm.subrange(0, k)),
                                pm[k],
                            )
                            &&& self.model() == apply_msgs(old(self).model(), pm.subrange(0, k))
                        };
                    assert(msgs_valid(old(self).model(), pm.subrange(0, k)) && self.model()
                        == apply_msgs(old(self).model(), pm.subrange(0, k)));
                },
            }
        }
        r
    }

    /// One processing callback over a block of `N` frames: the heart of the
    /// engine.  In order: a pending sample-rate change resets the DSP
    /// algorithm (at most once, never mid-block); the message channel is
    /// drained and applied in send order; until a preset has arrived the
    /// outputs are left exactly as the caller provided them; a playing
    /// backing track replaces the host input for the block and the
    /// transport advances; a bypassed engine copies its input to its
    /// output channel for channel; otherwise the DSP algorithm fills the
    /// outputs as its `spec_process` says.  Until the host has reported a
    /// sample rate the whole call is a no-op.  A protocol violation —
    /// a parameter id outside the cache, or a backing track shorter than
    /// the block — leaves the outputs untouched and is reported so the
    /// caller can fail fast.
    pub fn process_audio_stereo(
        &mut self,
        in_l: &Vec<S>,
        in_r: &Vec<S>,
        out_l: &mut Vec<S>,
        out_r: &mut Vec<S>,
    ) -> (r: Result<(), ProtocolError>)
        requires
            old(self).wf(),
            in_r@.len() == in_l@.len(),
            old(out_l)@.len() == in_l@.len(),
            old(out_r)@.len() == in_l@.len(),
        ensures
            final(self).wf(),
            final(out_l)@.len() == old(out_l)@.len(),
            final(out_r)@.len() == old(out_r)@.len(),
            ({
                let m0 = old(self).model();
                let n = old(out_l)@.len();
                let d1 = if m0.host_reset_pending {
                    old(self).dsp().spec_reset(m0.sample_rate)
                } else {
                    old(self).dsp()
                };
                if m0.sample_rate == 0 {
                    &&& r is Ok
                    &&& *final(self) == *old(self)
                    &&& final(out_l)@ == old(out_l)@
                    &&& final(out_r)@ == old(out_r)@
                } else {
                    &&& final(self).model().sample_rate == m0.sample_rate
                    &&& !final(self).model().host_reset_pending
                    &&& exists|msgs: Seq<GuiToAudioMsg<S>>|
                        {
                            let m1 = apply_msgs(clear_reset(m0), msgs);
                            &&& #[trigger] msgs_valid(clear_reset(m0), msgs)
                            &&& match r {
                                Ok(()) => {
                                    let (m2, d2, ol, or) = block_outcome(
                                        m1,
                                        d1,
                                        in_l@,
                                        in_r@,
                                        old(out_l)@,
                                        old(out_r)@,
                                    );
                                    &&& (m1.preset_initialized && m1.player.playing
                                        && m1.player.buffer is Some ==> n
                                        <= m1.player.buffer->Some_0.left.len())
                                    &&& final(self).model() == m2
                                    &&& final(self).dsp() == d2
                                    &&& final(out_l)@ == ol
                                    &&& final(out_r)@ == or
                                },
                                Err(e) => {
                                    &&& final(out_l)@ == old(out_l)@
                                    &&& final(out_r)@ == old(out_r)@
                                    &&& final(self).dsp() == d1
                                    &&& final(self).model() == m1
                                    &&& e == ProtocolError::BufferTooShort ==> {
                                        &&& m1.preset_initialized
                                        &&& m1.player.playing
                                        &&& m1.player.buffer is Some
                                        &&& m1.player.buffer->Some_0.left.len() < n
                                    }
                                },
                            }
                        }
                }
            }),
    {
        if self.sample_rate == 0 {
            return Ok(());
        }
        if self.host_did_reset {
            self.dsp_app.host_reset(self.sample_rate);
            self.host_did_reset = false;
        }
        let ghost m_cleared = self.model();
        proof {
            assert(m_cleared =~= clear_reset(old(self).model()));
        }
        let num_frames = out_l.len();
        let rr = self.poll_gui_messages();
        let ghost msgs_w = choose|msgs: Seq<GuiToAudioMsg<S>>|
            (#[trigger] msgs_valid(m_cleared, msgs)) && self.model() == apply_msgs(
                m_cleared,
                msgs,
            );
        let ghost m1 = self.model();
        proof {
            lemma_apply_msgs_keeps_host_fields(m_cleared, msgs_w);
            assert(msgs_valid(clear_reset(old(self).model()), msgs_w));
            assert(m1 == apply_msgs(clear_reset(old(self).model()), msgs_w));
        }
        if let Err(e) = rr {
            return Err(e);
        }
        if !self.did_init_preset {
            return Ok(());
        }
        match self.audio_player.playing_buffer_frames() {
            Some(len) => {
                if len < num_frames {
                    return Err(ProtocolError::BufferTooShort);
                }
            },
            None => {},
        }
        let next = self.audio_player.get_next(num_frames);
        proof {
            assert(self.model() =~= (EngineModel {
                player: player_after_block(m1, num_frames as nat),
                ..m1
            }));
        }
        let (pl, pr) = match next {
            Some(d) => d,
            None => (copy_samples(in_l), copy_samples(in_r)),
        };
        if self.bypassed {
            overwrite(out_l, &pl);
            overwrite(out_r, &pr);
            return Ok(());
        }
        let o_l = copy_samples(&pl);
        let o_r = copy_samples(&pr);
        let cached = copy_samples(&self.in_params);
        let mut info = AudioProcessInfo {
            in_l: pl,
            in_r: pr,
            out_l: o_l,
            out_r: o_r,
            sample_rate: self.sample_rate,
            in_params: cached,
        };
        self.dsp_app.process_stereo(&mut info);
        overwrite(out_l, &info.out_l);
        overwrite(out_r, &info.out_r);
        Ok(())
    }
}

} // verus!
