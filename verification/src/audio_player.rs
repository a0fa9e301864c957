//! Backing-track playback: an immutable stereo sample buffer and a transport
//! cursor over it with play/pause/stop and loop-on-end semantics.

use vstd::prelude::*;

verus! {

/// Why decoded audio data was rejected at load time.  Load-time rejection is
/// what keeps the audio thread's steady-state path free of errors: a buffer
/// that was accepted is long enough for every block the engine will request.
#[derive(Clone, Copy, Debug, PartialEq, Eq, Structural)]
pub enum BufferError {
    /// The decoded file holds fewer frames than the engine's configured
    /// minimum block length.
    ShorterThanMinimum,
    /// The decoded file is neither mono nor stereo.
    UnsupportedChannelCount,
}

impl BufferError {
    /// A human-readable reason, for reporting the failure to the user.
    pub fn reason(&self) -> &'static str {
        match self {
            BufferError::ShorterThanMinimum => "audio data is shorter than the minimum block length",
            BufferError::UnsupportedChannelCount => "audio data is not mono or stereo",
        }
    }
}

/// A fully decoded stereo backing track: two equal-length channels of
/// samples, immutable after construction.  Sample rate and gain are the
/// loader's business and are already applied to the data handed in.
pub struct AudioPlayerBuffer<S> {
    data_l: Vec<S>,
    data_r: Vec<S>,
}

impl<S> AudioPlayerBuffer<S> {
    /// The left channel, one sample per frame.
    pub closed spec fn left(self) -> Seq<S> {
        self.data_l@
    }

    /// The right channel, one sample per frame.
    pub closed spec fn right(self) -> Seq<S> {
        self.data_r@
    }

    /// Both channels hold one sample per frame.  This holds of every value
    /// of the type: buffers are immutable after construction, and
    /// construction establishes it.
    pub open spec fn wf(self) -> bool {
        self.left().len() == self.right().len()
    }

    #[verifier::type_invariant]
    spec fn type_inv(self) -> bool {
        self.wf()
    }

    /// The buffer as a mathematical value.
    pub open spec fn model(self) -> BufferModel<S> {
        BufferModel { left: self.left(), right: self.right() }
    }

    /// Number of stereo frames.
    pub open spec fn frames(self) -> nat {
        self.left().len()
    }
}

impl<S: Copy> AudioPlayerBuffer<S> {
    /// Builds a playback buffer from decoded sample data: `data` holds
    /// `n_frames` frames of `n_channels` channels, interleaved if stereo.
    /// A file shorter than `min_frames` (the engine's configured block
    /// length) is rejected here, at load time, so that the transport can
    /// always service a whole block; so is anything but mono or stereo.
    /// Mono data is duplicated onto both channels.
    pub fn new(data: Vec<S>, n_frames: usize, n_channels: usize, min_frames: usize) -> (r: Result<
        Self,
        BufferError,
    >)
        requires
            n_frames >= min_frames && 1 <= n_channels <= 2 ==> data@.len() == n_frames
                * n_channels,
        ensures
            match r {
                Ok(buf) => {
                    &&& n_frames >= min_frames
                    &&& 1 <= n_channels <= 2
                    &&& buf.wf()
                    &&& buf.frames() == n_frames
                    &&& n_channels == 1 ==> buf.left() == data@ && buf.right() == data@
                    &&& n_channels == 2 ==> forall|i: int|
                        0 <= i < n_frames ==> buf.left()[i] == data@[2 * i] && buf.right()[i]
                            == data@[2 * i + 1]
                },
                Err(e) => {
                    &&& e == BufferError::ShorterThanMinimum <==> n_frames < min_frames
                    &&& e == BufferError::UnsupportedChannelCount <==> n_frames >= min_frames && !(
                    1 <= n_channels <= 2)
                },
            },
    {
        if n_frames < min_frames {
            return Err(BufferError::ShorterThanMinimum);
        }
        if n_channels == 1 {
            let data_r = copy_samples(&data);
            Ok(AudioPlayerBuffer { data_l: data, data_r })
        } else if n_channels == 2 {
            let (data_l, data_r) = stereo_deinterleave(&data, n_frames);
            Ok(AudioPlayerBuffer { data_l, data_r })
        } else {
            Err(BufferError::UnsupportedChannelCount)
        }
    }
}

/// Mathematical view of a playback buffer: the two channel sequences.
pub ghost struct BufferModel<S> {
    pub left: Seq<S>,
    pub right: Seq<S>,
}

/// Mathematical view of the playback transport: a frame cursor, the playing
/// flag, and the attached buffer, if any.
pub ghost struct PlayerModel<S> {
    pub cursor: nat,
    pub playing: bool,
    pub buffer: Option<BufferModel<S>>,
}

/// The transport invariant: an attached buffer has equal-length channels,
/// and the transport only ever plays an attached buffer.  The cursor is not
/// bounded by the buffer length: attaching a shorter buffer can leave the
/// cursor past its end, and the next advance then wraps to frame zero.
pub open spec fn player_wf<S>(m: PlayerModel<S>) -> bool {
    &&& m.buffer is Some ==> m.buffer->Some_0.left.len() == m.buffer->Some_0.right.len()
    &&& m.playing ==> m.buffer is Some
}

/// Attaching a buffer replaces any previous one and leaves play state and
/// cursor untouched.
pub open spec fn player_load<S>(m: PlayerModel<S>, b: BufferModel<S>) -> PlayerModel<S> {
    PlayerModel { buffer: Some(b), ..m }
}

/// Play starts playback only when a buffer is attached.
pub open spec fn player_play<S>(m: PlayerModel<S>) -> PlayerModel<S> {
    if !m.playing && m.buffer is Some {
        PlayerModel { playing: true, ..m }
    } else {
        m
    }
}

/// Pause retains the cursor.
pub open spec fn player_pause<S>(m: PlayerModel<S>) -> PlayerModel<S> {
    PlayerModel { playing: false, ..m }
}

/// Stop rewinds to frame zero.
pub open spec fn player_stop<S>(m: PlayerModel<S>) -> PlayerModel<S> {
    PlayerModel { playing: false, cursor: 0, ..m }
}

/// A request for `n` frames wraps when it would reach or cross the end of
/// the buffer.
pub open spec fn advance_wraps(cursor: nat, n: nat, len: nat) -> bool {
    cursor + n >= len
}

/// The frame the returned window starts at: the cursor, or zero when the
/// request wraps.  A wrapping request restarts at frame zero for the whole
/// block; the tail beyond the wrap point is skipped, not played partially.
pub open spec fn advance_start(cursor: nat, n: nat, len: nat) -> nat {
    if advance_wraps(cursor, n, len) {
        0
    } else {
        cursor
    }
}

/// The cursor after a request for `n` frames.
pub open spec fn next_cursor(cursor: nat, n: nat, len: nat) -> nat {
    (advance_start(cursor, n, len) + n) as nat
}

/// Copies a sample vector element for element.
pub(crate) fn copy_samples<S: Copy>(data: &Vec<S>) -> (r: Vec<S>)
    ensures
        r@ == data@,
{
    let mut out: Vec<S> = Vec::new();
    let mut i: usize = 0;
    while i < data.len()
        invariant
            i <= data.len(),
            out@ == data@.subrange(0, i as int),
        decreases data.len() - i,
    {
        out.push(data[i]);
        i = i + 1;
    }
    assert(out@ == data@);
    out
}

/// Splits an interleaved stereo sample vector into its two channels.
fn stereo_deinterleave<S: Copy>(data: &Vec<S>, n_frames: usize) -> (r: (Vec<S>, Vec<S>))
    requires
        data@.len() == 2 * n_frames,
    ensures
        r.0@.len() == n_frames,
        r.1@.len() == n_frames,
        forall|i: int| 0 <= i < n_frames ==> r.0@[i] == data@[2 * i] && r.1@[i] == data@[2 * i + 1],
{
    let dlen = data.len();
    let mut l: Vec<S> = Vec::new();
    let mut r: Vec<S> = Vec::new();
    let mut i: usize = 0;
    while i < n_frames
        invariant
            i <= n_frames,
            dlen == data@.len(),
            data@.len() == 2 * n_frames,
            l@.len() == i,
            r@.len() == i,
            forall|j: int| 0 <= j < i ==> l@[j] == data@[2 * j] && r@[j] == data@[2 * j + 1],
        decreases n_frames - i,
    {
        l.push(data[2 * i]);
        r.push(data[2 * i + 1]);
        i = i + 1;
    }
    (l, r)
}

/// Copies `n` samples starting at `start` out of a channel.
fn copy_window<S: Copy>(data: &Vec<S>, start: usize, n: usize) -> (r: Vec<S>)
    requires
        start + n <= data@.len(),
    ensures
        r@ == data@.subrange(start as int, start + n),
{
    let dlen = data.len();
    let mut out: Vec<S> = Vec::new();
    let mut i: usize = 0;
    while i < n
        invariant
            i <= n,
            start + n <= dlen,
            dlen == data@.len(),
            out@ == data@.subrange(start as int, start + i),
        decreases n - i,
    {
        out.push(data[start + i]);
        assert(data@.subrange(start as int, start + i + 1) == data@.subrange(
            start as int,
            start + i,
        ).push(data@[start + i]));
        i = i + 1;
    }
    out
}

/// The playback transport: a position cursor over an optional backing-track
/// buffer, driven by play/pause/stop intents from the control thread and
/// advanced once per audio callback.
pub struct AudioPlayer<S> {
    transport: usize,
    buffer: Option<AudioPlayerBuffer<S>>,
    playing: bool,
}

impl<S: Copy> AudioPlayer<S> {
    /// The transport as a mathematical value.
    pub closed spec fn model(self) -> PlayerModel<S> {
        PlayerModel {
            cursor: self.transport as nat,
            playing: self.playing,
            buffer: match self.buffer {
                Some(b) => Some(b.model()),
                None => None,
            },
        }
    }

    /// The transport invariant.
    pub open spec fn wf(self) -> bool {
        player_wf(self.model())
    }

    /// A fresh transport: no buffer, stopped, at frame zero.
    pub fn new() -> (r: Self)
        ensures
            r.wf(),
            r.model() == (PlayerModel::<S> { cursor: 0, playing: false, buffer: None }),
    {
        AudioPlayer { transport: 0, buffer: None, playing: false }
    }

    /// Attaches a backing track, replacing any previous one.  Play state and
    /// cursor are unchanged.
    pub fn load_buffer(&mut self, buffer: AudioPlayerBuffer<S>)
        requires
            old(self).wf(),
        ensures
            final(self).wf(),
            final(self).model() == player_load(old(self).model(), buffer.model()),
    {
        proof {
            use_type_invariant(&buffer);
        }
        self.buffer = Some(buffer);
    }

    /// Detaches the buffer and fully resets the transport.
    pub fn _clear_buffer(&mut self)
        ensures
            final(self).wf(),
            final(self).model() == (PlayerModel::<S> { cursor: 0, playing: false, buffer: None }),
    {
        self.buffer = None;
        self.playing = false;
        self.transport = 0;
    }

    /// Starts playback, if a buffer is attached; a no-op otherwise.
    pub fn play(&mut self)
        requires
            old(self).wf(),
        ensures
            final(self).wf(),
            final(self).model() == player_play(old(self).model()),
    {
        if !self.playing {
            if let Some(_) = self.buffer {
                self.playing = true;
            }
        }
    }

    /// Pauses playback; the cursor is retained.
    pub fn pause(&mut self)
        requires
            old(self).wf(),
        ensures
            final(self).wf(),
            final(self).model() == player_pause(old(self).model()),
    {
        if self.playing {
            self.playing = false;
        }
    }

    /// Stops playback and rewinds to frame zero.
    pub fn stop(&mut self)
        requires
            old(self).wf(),
        ensures
            final(self).wf(),
            final(self).model() == player_stop(old(self).model()),
    {
        self.playing = false;
        self.transport = 0;
    }

    /// The length of the backing track, when the transport would actually
    /// play it: the transport is playing and a buffer is attached.  The
    /// engine checks this against the block size before advancing, so that
    /// a buffer that slipped past load-time validation is caught rather
    /// than truncated.
    pub fn playing_buffer_frames(&self) -> (r: Option<usize>)
        ensures
            match r {
                Some(len) => self.model().playing && self.model().buffer is Some && len == self
                    .model().buffer->Some_0.left.len(),
                None => !(self.model().playing && self.model().buffer is Some),
            },
    {
        if self.playing {
            match &self.buffer {
                Some(buffer) => Some(buffer.data_l.len()),
                None => None,
            }
        } else {
            None
        }
    }

    /// Hands out the next `num_frames` frames of the backing track, or
    /// nothing when the transport is not playing or no buffer is attached.
    /// A request that would reach or cross the end of the buffer restarts at
    /// frame zero before producing any samples, so a returned window always
    /// holds exactly `num_frames` frames of each channel.  The caller must
    /// have enforced at load time that the buffer holds at least
    /// `num_frames` frames.
    pub fn get_next(&mut self, num_frames: usize) -> (r: Option<(Vec<S>, Vec<S>)>)
        requires
            old(self).wf(),
            old(self).model().playing && old(self).model().buffer is Some ==> num_frames <= old(
                self,
            ).model().buffer->Some_0.left.len(),
        ensures
            final(self).wf(),
            ({
                let m = old(self).model();
                if m.playing && m.buffer is Some {
                    let len = m.buffer->Some_0.left.len();
                    let start = advance_start(m.cursor, num_frames as nat, len);
                    &&& r is Some
                    &&& r->Some_0.0@ == m.buffer->Some_0.left.subrange(
                        start as int,
                        start + num_frames,
                    )
                    &&& r->Some_0.1@ == m.buffer->Some_0.right.subrange(
                        start as int,
                        start + num_frames,
                    )
                    &&& final(self).model() == (PlayerModel {
                        cursor: next_cursor(m.cursor, num_frames as nat, len),
                        ..m
                    })
                } else {
                    &&& r is None
                    &&& final(self).model() == m
                }
            }),
    {
        if self.playing {
            match &self.buffer {
                Some(buffer) => {
                    let len = buffer.data_l.len();
                    let start: usize = if self.transport >= len || num_frames >= len
                        - self.transport {
                        0
                    } else {
                        self.transport
                    };
                    let out_l = copy_window(&buffer.data_l, start, num_frames);
                    let out_r = copy_window(&buffer.data_r, start, num_frames);
                    self.transport = start + num_frames;
                    Some((out_l, out_r))
                },
                None => None,
            }
        } else {
            None
        }
    }
}

/// The sum of a sequence of frame requests.
pub open spec fn seq_sum(ns: Seq<nat>) -> nat
    decreases ns.len(),
{
    if ns.len() == 0 {
        0
    } else {
        ns[0] + seq_sum(ns.drop_first())
    }
}

/// The cursor after servicing a sequence of frame requests against a buffer
/// of `len` frames.
pub open spec fn cursor_after(cursor: nat, ns: Seq<nat>, len: nat) -> nat
    decreases ns.len(),
{
    if ns.len() == 0 {
        cursor
    } else {
        cursor_after(next_cursor(cursor, ns[0], len), ns.drop_first(), len)
    }
}

/// Whether at least one of a sequence of frame requests wraps to frame zero.
pub open spec fn some_request_wraps(cursor: nat, ns: Seq<nat>, len: nat) -> bool
    decreases ns.len(),
{
    if ns.len() == 0 {
        false
    } else {
        advance_wraps(cursor, ns[0], len) || some_request_wraps(
            next_cursor(cursor, ns[0], len),
            ns.drop_first(),
            len,
        )
    }
}

/// If no request wraps, the cursor just accumulates the requests, and stays
/// strictly inside the buffer.
proof fn lemma_no_wrap_accumulates(cursor: nat, ns: Seq<nat>, len: nat)
    requires
        !some_request_wraps(cursor, ns, len),
    ensures
        cursor_after(cursor, ns, len) == cursor + seq_sum(ns),
        ns.len() > 0 ==> cursor + seq_sum(ns) < len,
    decreases ns.len(),
{
    if ns.len() > 0 {
        lemma_no_wrap_accumulates(next_cursor(cursor, ns[0], len), ns.drop_first(), len);
    }
}

/// The wraparound law: a run of advance calls whose requested frames sum to
/// more than the buffer length wraps to frame zero at least once.
pub proof fn lemma_transport_wraps(cursor: nat, ns: Seq<nat>, len: nat)
    requires
        cursor <= len,
        cursor + seq_sum(ns) > len,
    ensures
        some_request_wraps(cursor, ns, len),
{
    if !some_request_wraps(cursor, ns, len) {
        lemma_no_wrap_accumulates(cursor, ns, len);
    }
}

} // verus!
