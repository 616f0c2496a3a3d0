//! Buffers of an audio processor, and the plan made when a sound starts playing.
use vstd::prelude::*;

verus! {

/// `value` when there is one, else `default`.
pub open spec fn spec_unwrap_or<T>(value: Option<T>, default: T) -> T {
    match value {
        Some(v) => v,
        None => default,
    }
}

/// The plain view of a vector of per-channel buffers.
pub open spec fn buffers_view<T>(buffers: Seq<Vec<T>>) -> Seq<Seq<T>> {
    buffers.map_values(|b: Vec<T>| b@)
}

/// `buffers` holds `channels` channels of `frames` samples each.
pub open spec fn is_shaped<T>(buffers: Seq<Seq<T>>, channels: nat, frames: nat) -> bool {
    &&& buffers.len() == channels
    &&& forall|c: int| 0 <= c < channels ==> #[trigger] buffers[c].len() == frames
}

/// Sample `k` of the interleaved stream that per-channel `buffers` hold: frame
/// after frame, and within a frame channel after channel.
pub open spec fn interleaved_at<T>(buffers: Seq<Seq<T>>, channels: nat, k: int) -> T {
    buffers[k % (channels as int)][k / (channels as int)]
}

/// Per-channel buffers filled from an interleaved stream of `channels *
/// frames` pulled samples, where a missing sample counts as `silence`.
pub open spec fn deinterleaved<T>(pulled: Seq<Option<T>>, silence: T, channels: nat, frames: nat) -> Seq<Seq<T>> {
    Seq::new(
        channels,
        |c: int| Seq::new(frames, |i: int| spec_unwrap_or(pulled[i * (channels as int) + c], silence)),
    )
}

/// The frame and channel of a cursor sit inside a buffer of `channels` by
/// `frames` samples, and its interleaved position is in range.
proof fn lemma_cursor_in_range(idx: int, ch: int, channels: int, frames: int)
    requires
        0 <= idx < frames,
        0 <= ch < channels,
    ensures
        0 <= idx * channels + ch < channels * frames,
        idx * channels + ch + 1 <= channels * frames,
        (idx + 1) * channels == idx * channels + channels,
{
    assert(idx * channels + ch < channels * frames) by (nonlinear_arith)
        requires
            0 <= idx < frames,
            0 <= ch < channels,
    ;
    assert(0 <= idx * channels) by (nonlinear_arith)
        requires
            0 <= idx,
            0 <= channels,
    ;
    assert((idx + 1) * channels == idx * channels + channels) by (nonlinear_arith);
}

/// Position `idx * channels + ch` of an interleaved stream is channel `ch` of
/// frame `idx`.
proof fn lemma_position_split(idx: int, ch: int, channels: int)
    requires
        0 <= idx,
        0 <= ch < channels,
    ensures
        (idx * channels + ch) % channels == ch,
        (idx * channels + ch) / channels == idx,
{
    vstd::arithmetic::div_mod::lemma_fundamental_div_mod_converse(idx * channels + ch, channels, idx, ch);
}

/// De-interleaving a stream into per-channel buffers and reading those
/// buffers back in interleaved order gives the stream again, each missing
/// sample replaced by `silence`.
pub proof fn lemma_interleave_roundtrip<T>(pulled: Seq<Option<T>>, silence: T, channels: nat, frames: nat, k: int)
    requires
        pulled.len() == channels * frames,
        0 <= k < channels * frames,
    ensures
        interleaved_at(deinterleaved(pulled, silence, channels, frames), channels, k)
            == spec_unwrap_or(pulled[k], silence),
{
    assert(channels > 0) by (nonlinear_arith)
        requires
            0 <= k < channels * frames,
    ;
    let c = channels as int;
    vstd::arithmetic::div_mod::lemma_fundamental_div_mod(k, c);
    let ch = k % c;
    let idx = k / c;
    assert(0 <= ch < c);
    assert(0 <= idx) by {
        vstd::arithmetic::div_mod::lemma_div_pos_is_pos(k, c);
    }
    assert(idx < frames) by {
        vstd::arithmetic::div_mod::lemma_multiply_divide_lt(k, c, frames as int);
    }
    assert(idx * c + ch == k) by (nonlinear_arith)
        requires
            k == c * idx + ch,
    ;
}

/// In an interleaved stream of `channels` channels, position `i * channels +
/// ch` holds channel `ch` of frame `i`: the first channel gets the first
/// sample of each frame, the second channel the second, and so on.
pub proof fn lemma_interleaved_channel_order<T>(buffers: Seq<Seq<T>>, channels: nat, i: int, ch: int)
    requires
        0 <= i,
        0 <= ch < channels,
    ensures
        interleaved_at(buffers, channels, i * (channels as int) + ch) == buffers[ch][i],
{
    lemma_position_split(i, ch, channels as int);
}

/// Filling per-channel buffers from an interleaved stream puts sample
/// `i * channels + ch` of the stream into frame `i` of channel `ch`, a missing
/// sample counting as `silence`, and gives each of the `channels` channels
/// `frames` samples.
pub proof fn lemma_deinterleaved_index<T>(pulled: Seq<Option<T>>, silence: T, channels: nat, frames: nat)
    ensures
        deinterleaved(pulled, silence, channels, frames).len() == channels,
        forall|ch: int|
            0 <= ch < channels ==> #[trigger] deinterleaved(pulled, silence, channels, frames)[ch].len() == frames,
        forall|ch: int, i: int|
            0 <= ch < channels && 0 <= i < frames ==> #[trigger] deinterleaved(pulled, silence, channels, frames)[ch][i]
                == match pulled[i * (channels as int) + ch] {
                Some(sample) => sample,
                None => silence,
            },
{
}

/// The interleaved position that an output call of a processor reads when it
/// finds its cursor at `position` of a block of `block_len` samples: the
/// position itself while it lies inside the block; else `take_sample` gives
/// nothing and rewinds the cursor to this position, the buffers are refilled
/// with `load_input` and `replace_output` (which leave the cursor where it
/// is), and the next `take_sample` reads it. Either way the sample comes from
/// this position and the cursor ends one past it, as `take_sample` states.
pub open spec fn spec_read_position(position: int, block_len: int) -> int {
    if position < block_len {
        position
    } else {
        0
    }
}

/// Where the cursor of a processor stands after `calls` output calls, each of
/// which reads `spec_read_position` and moves on by one, starting from the
/// start of the first block.
pub open spec fn spec_position_after(block_len: nat, calls: nat) -> int
    decreases calls,
{
    if calls == 0 {
        0
    } else {
        spec_read_position(spec_position_after(block_len, (calls - 1) as nat), block_len as int) + 1
    }
}

/// Number of refills among the first `calls` output calls: a call refills
/// when it finds its cursor at the end of the block.
pub open spec fn spec_refills(block_len: nat, calls: nat) -> nat
    decreases calls,
{
    if calls == 0 {
        0
    } else {
        spec_refills(block_len, (calls - 1) as nat) + if spec_position_after(block_len, (calls - 1) as nat)
            >= block_len {
            1nat
        } else {
            0nat
        }
    }
}

/// A processor hands out its output as one unbroken stream: output call `k`
/// (counting from zero) reads interleaved position `k % block_len` of block
/// `k / block_len`, where block zero is the one filled when the processor was
/// built and each refill brings the next block.
pub proof fn lemma_stream_order(block_len: nat, k: nat)
    requires
        block_len > 0,
    ensures
        spec_read_position(spec_position_after(block_len, k), block_len as int) == (k as int) % (block_len as int),
        spec_refills(block_len, k + 1) == (k as int) / (block_len as int),
        spec_position_after(block_len, k) == if k == 0 {
            0
        } else {
            (k - 1) % (block_len as int) + 1
        },
    decreases k,
{
    let b = block_len as int;
    if k == 0 {
        assert(0int % b == 0 && 0int / b == 0) by {
            vstd::arithmetic::div_mod::lemma_fundamental_div_mod_converse(0, b, 0, 0);
        }
        assert(spec_position_after(block_len, 0) == 0);
        assert(spec_refills(block_len, 0) == 0);
        assert(spec_refills(block_len, 1) == 0);
    } else {
        let km = (k - 1) as nat;
        lemma_stream_order(block_len, km);
        let q = (km as int) / b;
        let r = (km as int) % b;
        vstd::arithmetic::div_mod::lemma_fundamental_div_mod(km as int, b);
        assert(0 <= r < b);
        assert(km == q * b + r) by (nonlinear_arith)
            requires
                km == b * q + r,
        ;
        assert(spec_position_after(block_len, k) == r + 1);
        if r + 1 < b {
            vstd::arithmetic::div_mod::lemma_fundamental_div_mod_converse(k as int, b, q, r + 1);
            assert(spec_refills(block_len, k + 1) == spec_refills(block_len, k));
        } else {
            assert(k == (q + 1) * b + 0) by (nonlinear_arith)
                requires
                    km == q * b + r,
                    r + 1 == b,
                    k == km + 1,
            ;
            vstd::arithmetic::div_mod::lemma_fundamental_div_mod_converse(k as int, b, q + 1, 0);
            assert(spec_refills(block_len, k + 1) == spec_refills(block_len, k) + 1);
        }
        if km == 0 {
            assert(spec_refills(block_len, k) == 0);
            assert(q == 0);
        }
    }
}

/// The buffers of an audio processor.
///
/// Samples pulled from a source fill the input buffers, one frame of
/// `channels` samples after another; a processing node turns the input buffers
/// into output buffers; a cursor then hands the output back, again frame by
/// frame and channel by channel.
pub struct ProcessorBuffers<T> {
    channels: usize,
    frames: usize,
    buffer_in: Vec<Vec<T>>,
    buffer_out: Vec<Vec<T>>,
    buffer_idx: usize,
    buffer_channel: usize,
}

impl<T: Copy> ProcessorBuffers<T> {
    /// Number of channels of the buffers.
    pub closed spec fn spec_channels(&self) -> nat {
        self.channels as nat
    }

    /// Number of samples per channel.
    pub closed spec fn spec_frames(&self) -> nat {
        self.frames as nat
    }

    /// The input buffers, one sequence of samples per channel.
    pub closed spec fn spec_input(&self) -> Seq<Seq<T>> {
        buffers_view(self.buffer_in@)
    }

    /// The output buffers, one sequence of samples per channel.
    pub closed spec fn spec_output(&self) -> Seq<Seq<T>> {
        buffers_view(self.buffer_out@)
    }

    /// Position of the cursor in the interleaved output.
    pub closed spec fn spec_position(&self) -> int {
        self.buffer_idx * self.channels + self.buffer_channel
    }

    /// The buffers have their shape and the cursor is within them.
    pub closed spec fn wf(&self) -> bool {
        &&& self.frames > 0
        &&& self.channels * self.frames <= usize::MAX
        &&& is_shaped(self.spec_input(), self.channels as nat, self.frames as nat)
        &&& is_shaped(self.spec_output(), self.channels as nat, self.frames as nat)
        &&& self.buffer_idx <= self.frames
        &&& self.channels > 0 ==> self.buffer_channel < self.channels
        &&& self.channels == 0 ==> self.buffer_channel == 0
        &&& self.buffer_idx == self.frames ==> self.buffer_channel == 0
    }

    /// A cursor at the start of the buffers lies before their end.
    pub proof fn lemma_start_has_sample(&self)
        requires
            self.wf(),
            self.spec_channels() > 0,
            self.spec_position() == 0,
        ensures
            self.spec_position() < self.spec_channels() * self.spec_frames(),
    {
        assert(self.channels * self.frames > 0) by (nonlinear_arith)
            requires
                self.channels > 0,
                self.frames > 0,
        ;
    }

    /// Builds buffers of `channels` channels of `frames` samples, all set to
    /// `silence`, with the cursor at the start.
    pub fn new(channels: usize, frames: usize, silence: T) -> (buffers: Self)
        requires
            frames > 0,
            channels * frames <= usize::MAX,
        ensures
            buffers.wf(),
            buffers.spec_channels() == channels,
            buffers.spec_frames() == frames,
            buffers.spec_input() == Seq::new(channels as nat, |c: int| Seq::new(frames as nat, |i: int| silence)),
            buffers.spec_output() == Seq::new(channels as nat, |c: int| Seq::new(frames as nat, |i: int| silence)),
            buffers.spec_position() == 0,
            buffers.spec_input().len() == channels,
            buffers.spec_output().len() == channels,
            forall|c: int, i: int|
                0 <= c < channels && 0 <= i < frames ==> {
                    &&& #[trigger] buffers.spec_input()[c][i] == silence
                    &&& buffers.spec_output()[c][i] == silence
                },
    {
        let buffer_in = Self::silent_buffers(channels, frames, silence);
        let buffer_out = Self::silent_buffers(channels, frames, silence);
        let buffers = ProcessorBuffers { channels, frames, buffer_in, buffer_out, buffer_idx: 0, buffer_channel: 0 };
        assert(buffers.spec_position() == 0) by (nonlinear_arith)
            requires
                buffers.buffer_idx == 0,
                buffers.buffer_channel == 0,
        ;
        buffers
    }

    fn silent_buffers(channels: usize, frames: usize, silence: T) -> (buffers: Vec<Vec<T>>)
        ensures
            buffers_view(buffers@) == Seq::new(channels as nat, |c: int| Seq::new(frames as nat, |i: int| silence)),
    {
        let mut buffers: Vec<Vec<T>> = Vec::new();
        for c in 0..channels
            invariant
                buffers@.len() == c,
                forall|k: int| 0 <= k < c ==> #[trigger] buffers@[k]@ == Seq::new(frames as nat, |i: int| silence),
        {
            let mut channel: Vec<T> = Vec::new();
            for i in 0..frames
                invariant
                    channel@ == Seq::new(i as nat, |j: int| silence),
            {
                channel.push(silence);
            }
            buffers.push(channel);
        }
        assert(buffers_view(buffers@) =~= Seq::new(channels as nat, |c: int| Seq::new(frames as nat, |i: int| silence)));
        buffers
    }

    /// Number of channels.
    pub fn channels(&self) -> (channels: usize)
        ensures
            channels == self.spec_channels(),
    {
        self.channels
    }

    /// Number of samples per channel.
    pub fn frames(&self) -> (frames: usize)
        ensures
            frames == self.spec_frames(),
    {
        self.frames
    }

    /// The input buffers, for the processing node to read.
    pub fn input(&self) -> (input: &Vec<Vec<T>>)
        ensures
            buffers_view(input@) == self.spec_input(),
            input@.len() == self.spec_input().len(),
            forall|c: int| 0 <= c < input@.len() ==> #[trigger] input@[c]@ == self.spec_input()[c],
    {
        &self.buffer_in
    }

    /// Puts the output of the processing node in place of the output buffers,
    /// and hands back the buffers that it replaced.
    pub fn replace_output(&mut self, output: Vec<Vec<T>>) -> (previous: Vec<Vec<T>>)
        requires
            old(self).wf(),
            is_shaped(buffers_view(output@), old(self).spec_channels(), old(self).spec_frames()),
        ensures
            final(self).wf(),
            buffers_view(previous@) == old(self).spec_output(),
            final(self).spec_output() == buffers_view(output@),
            final(self).spec_output().len() == output@.len(),
            forall|c: int| 0 <= c < output@.len() ==> #[trigger] final(self).spec_output()[c] == output@[c]@,
            previous@.len() == old(self).spec_output().len(),
            forall|c: int| 0 <= c < previous@.len() ==> #[trigger] previous@[c]@ == old(self).spec_output()[c],
            final(self).spec_input() == old(self).spec_input(),
            final(self).spec_channels() == old(self).spec_channels(),
            final(self).spec_frames() == old(self).spec_frames(),
            final(self).spec_position() == old(self).spec_position(),
    {
        let mut previous = output;
        std::mem::swap(&mut self.buffer_out, &mut previous);
        previous
    }

    /// Fills the input buffers from `pulled`, the next `channels * frames`
    /// samples of the source in interleaved order; a sample that the source did
    /// not give counts as `silence`.
    pub fn load_input(&mut self, pulled: &Vec<Option<T>>, silence: T)
        requires
            old(self).wf(),
            pulled@.len() == old(self).spec_channels() * old(self).spec_frames(),
        ensures
            final(self).wf(),
            final(self).spec_input() == deinterleaved(pulled@, silence, old(self).spec_channels(), old(self).spec_frames()),
            final(self).spec_input().len() == old(self).spec_channels(),
            forall|c: int| 0 <= c < old(self).spec_channels() ==> #[trigger] final(self).spec_input()[c].len() == old(self).spec_frames(),
            forall|c: int, i: int|
                0 <= c < old(self).spec_channels() && 0 <= i < old(self).spec_frames() ==> #[trigger] final(self).spec_input()[c][i]
                    == match pulled@[i * old(self).spec_channels() + c] {
                    Some(sample) => sample,
                    None => silence,
                },
            final(self).spec_output() == old(self).spec_output(),
            final(self).spec_channels() == old(self).spec_channels(),
            final(self).spec_frames() == old(self).spec_frames(),
            final(self).spec_position() == old(self).spec_position(),
    {
        let channels = self.channels;
        let frames = self.frames;
        let ghost target = deinterleaved(pulled@, silence, channels as nat, frames as nat);
        let mut rows: Vec<Vec<T>> = Vec::new();
        for c in 0..channels
            invariant
                channels == self.channels,
                frames == self.frames,
                channels * frames <= usize::MAX,
                pulled@.len() == channels * frames,
                target == deinterleaved(pulled@, silence, channels as nat, frames as nat),
                rows@.len() == c,
                forall|k: int| 0 <= k < c ==> #[trigger] rows@[k]@ == target[k],
        {
            let mut row: Vec<T> = Vec::new();
            for i in 0..frames
                invariant
                    channels == self.channels,
                    frames == self.frames,
                    channels * frames <= usize::MAX,
                    pulled@.len() == channels * frames,
                    target == deinterleaved(pulled@, silence, channels as nat, frames as nat),
                    c < channels,
                    row@ == target[c as int].take(i as int),
            {
                proof {
                    lemma_cursor_in_range(i as int, c as int, channels as int, frames as int);
                }
                let k = i * channels + c;
                let sample = match pulled[k] {
                    Some(s) => s,
                    None => silence,
                };
                row.push(sample);
                assert(row@ =~= target[c as int].take(i + 1));
            }
            assert(row@ =~= target[c as int]);
            rows.push(row);
        }
        self.buffer_in = rows;
        assert(self.spec_input() =~= target);
    }

    /// Hands out the sample under the cursor and moves the cursor on, channel
    /// after channel and frame after frame. Once the whole output has been
    /// handed out, gives nothing and puts the cursor back at the start: the
    /// buffers are then to be filled and processed again.
    pub fn take_sample(&mut self) -> (sample: Option<T>)
        requires
            old(self).wf(),
            old(self).spec_channels() > 0,
        ensures
            final(self).wf(),
            final(self).spec_input() == old(self).spec_input(),
            final(self).spec_output() == old(self).spec_output(),
            final(self).spec_channels() == old(self).spec_channels(),
            final(self).spec_frames() == old(self).spec_frames(),
            old(self).spec_position() < old(self).spec_channels() * old(self).spec_frames() ==> {
                &&& sample == Some(interleaved_at(old(self).spec_output(), old(self).spec_channels(), old(self).spec_position()))
                &&& sample == Some(
                    old(self).spec_output()[old(self).spec_position() % (old(self).spec_channels() as int)][old(self).spec_position()
                        / (old(self).spec_channels() as int)],
                )
                &&& final(self).spec_position() == old(self).spec_position() + 1
            },
            old(self).spec_position() >= old(self).spec_channels() * old(self).spec_frames() ==> {
                &&& sample is None
                &&& final(self).spec_position() == 0
            },
            sample is Some ==> {
                &&& sample == Some(
                    interleaved_at(
                        old(self).spec_output(),
                        old(self).spec_channels(),
                        spec_read_position(
                            old(self).spec_position(),
                            (old(self).spec_channels() * old(self).spec_frames()) as int,
                        ),
                    ),
                )
                &&& final(self).spec_position() == spec_read_position(
                    old(self).spec_position(),
                    (old(self).spec_channels() * old(self).spec_frames()) as int,
                ) + 1
            },
            sample is None ==> {
                &&& final(self).spec_position() == spec_read_position(
                    old(self).spec_position(),
                    (old(self).spec_channels() * old(self).spec_frames()) as int,
                )
                &&& final(self).spec_position() == 0
            },
    {
        let ghost old_position = self.spec_position();
        if self.buffer_idx < self.frames {
            proof {
                lemma_cursor_in_range(self.buffer_idx as int, self.buffer_channel as int, self.channels as int, self.frames as int);
                lemma_position_split(self.buffer_idx as int, self.buffer_channel as int, self.channels as int);
                assert(self.buffer_out@[self.buffer_channel as int]@ == self.spec_output()[self.buffer_channel as int]);
            }
            let sample = self.buffer_out[self.buffer_channel][self.buffer_idx];
            self.buffer_channel = self.buffer_channel + 1;
            if self.buffer_channel >= self.channels {
                self.buffer_idx = self.buffer_idx + 1;
                self.buffer_channel = 0;
            }
            Some(sample)
        } else {
            proof {
                assert(old_position == self.channels * self.frames) by (nonlinear_arith)
                    requires
                        old_position == self.buffer_idx * self.channels + self.buffer_channel,
                        self.buffer_idx == self.frames,
                        self.buffer_channel == 0,
                ;
            }
            self.buffer_idx = 0;
            self.buffer_channel = 0;
            assert(self.spec_position() == 0) by (nonlinear_arith)
                requires
                    self.buffer_idx == 0,
                    self.buffer_channel == 0,
            ;
            None
        }
    }
}

/// How a queued sound plays, and what becomes of its entity when it ends.
#[derive(Clone, Copy, Debug, PartialEq, Eq, Structural)]
pub enum PlaybackMode {
    /// Play once, and keep the entity and its components.
    Once,
    /// Repeat the sound forever.
    Loop,
    /// Play once, then despawn the entity.
    Despawn,
    /// Play once, then remove the audio components from the entity.
    Remove,
}

/// A marker put on an entity whose playback is to be cleaned up when it ends.
#[derive(Clone, Copy, Debug, PartialEq, Eq, Structural)]
pub enum PlaybackMarker {
    /// The entity is despawned when playback finishes.
    Despawn,
    /// The audio components are removed when playback finishes.
    Remove,
}

/// What is done when a queued sound starts playing.
#[derive(Clone, Copy, Debug, PartialEq, Eq, Structural)]
pub struct PlaybackPlan {
    /// The decoded sound is repeated forever.
    pub repeat: bool,
    /// The marker put on the entity, if any.
    pub marker: Option<PlaybackMarker>,
    /// The sound plays through a spatial sink.
    pub spatial: bool,
    /// Warn that there are several spatial listeners and only the first is used.
    pub warn_multiple_listeners: bool,
    /// Warn that a spatial sound has no global transform and is placed at the origin.
    pub warn_missing_emitter: bool,
    /// The sink starts paused.
    pub start_paused: bool,
}

/// The plan for a queued sound with the given settings, where
/// `listener_count` spatial listeners exist and `has_emitter_transform` tells
/// whether the sound's entity has a global transform.
pub open spec fn spec_plan_playback(
    mode: PlaybackMode,
    spatial: bool,
    paused: bool,
    listener_count: nat,
    has_emitter_transform: bool,
) -> PlaybackPlan {
    PlaybackPlan {
        repeat: mode == PlaybackMode::Loop,
        marker: match mode {
            PlaybackMode::Despawn => Some(PlaybackMarker::Despawn),
            PlaybackMode::Remove => Some(PlaybackMarker::Remove),
            _ => None,
        },
        spatial,
        warn_multiple_listeners: spatial && listener_count > 1,
        warn_missing_emitter: spatial && !has_emitter_transform,
        start_paused: paused,
    }
}

/// Decides how a queued sound starts playing: whether it repeats, which
/// cleanup marker its entity gets, whether it plays spatially and with which
/// warnings, and whether its sink starts paused.
pub fn plan_playback(
    mode: PlaybackMode,
    spatial: bool,
    paused: bool,
    listener_count: usize,
    has_emitter_transform: bool,
) -> (plan: PlaybackPlan)
    ensures
        plan == spec_plan_playback(mode, spatial, paused, listener_count as nat, has_emitter_transform),
        plan.repeat == (mode == PlaybackMode::Loop),
        plan.marker == (match mode {
            PlaybackMode::Despawn => Some(PlaybackMarker::Despawn),
            PlaybackMode::Remove => Some(PlaybackMarker::Remove),
            _ => None,
        }),
        plan.spatial == spatial,
        plan.warn_multiple_listeners == (spatial && listener_count > 1),
        plan.warn_missing_emitter == (spatial && !has_emitter_transform),
        plan.start_paused == paused,
{
    let (repeat, marker) = match mode {
        PlaybackMode::Loop => (true, None),
        PlaybackMode::Once => (false, None),
        PlaybackMode::Despawn => (false, Some(PlaybackMarker::Despawn)),
        PlaybackMode::Remove => (false, Some(PlaybackMarker::Remove)),
    };
    let warn_multiple_listeners = spatial && listener_count > 1;
    let warn_missing_emitter = spatial && !has_emitter_transform;
    PlaybackPlan { repeat, marker, spatial, warn_multiple_listeners, warn_missing_emitter, start_paused: paused }
}

/// Only a looping sound repeats; only a sound that plays once leaves a
/// cleanup marker, and then the one its mode names; whether the sound plays
/// spatially, and whether it starts paused, follow its settings alone, in
/// every mode; a spatial sound warns of several listeners exactly when there
/// are more than one, and of a missing transform exactly when it has none,
/// and a sound that is not spatial never warns.
pub proof fn lemma_plan_playback(
    mode: PlaybackMode,
    spatial: bool,
    paused: bool,
    listener_count: nat,
    has_emitter_transform: bool,
)
    ensures
        ({
            let plan = spec_plan_playback(mode, spatial, paused, listener_count, has_emitter_transform);
            &&& plan.repeat <==> mode == PlaybackMode::Loop
            &&& plan.repeat ==> plan.marker is None
            &&& plan.marker == Some(PlaybackMarker::Despawn) <==> mode == PlaybackMode::Despawn
            &&& plan.marker == Some(PlaybackMarker::Remove) <==> mode == PlaybackMode::Remove
            &&& !spatial ==> !plan.warn_multiple_listeners && !plan.warn_missing_emitter
            &&& plan.start_paused == paused
            &&& plan.spatial == spatial
            &&& (mode == PlaybackMode::Once || mode == PlaybackMode::Loop) ==> plan.marker is None
            &&& spatial ==> (plan.warn_multiple_listeners <==> listener_count > 1)
            &&& spatial ==> (plan.warn_missing_emitter <==> !has_emitter_transform)
        }),
{
}

/// Where the output of a sound or of a mixer goes: into the mixer that its
/// target entity holds, if there is one, else to the global output.
pub fn route_output<M, G>(target_mixer: Option<M>, global: G) -> (route: Result<M, G>)
    ensures
        route == match target_mixer {
            Some(mixer) => Ok::<M, G>(mixer),
            None => Err::<M, G>(global),
        },
{
    match target_mixer {
        Some(mixer) => Ok(mixer),
        None => Err(global),
    }
}

/// Whether spatial sinks must be told new ear positions: only when the
/// default spatial scale changed or some spatial listener changed.
pub fn listeners_need_update(scale_changed: bool, listener_changed: bool) -> (update: bool)
    ensures
        update == (scale_changed || listener_changed),
{
    scale_changed || listener_changed
}

} // verus!
