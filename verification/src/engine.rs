//! The playback engine: the state machine and mixing loop that the dedicated
//! audio thread runs.  It owns a sequenced renderer, a streamed renderer and
//! a tone synthesizer (all opaque components behind capability traits),
//! drains ownership-transferring commands, and fills the hardware's output
//! frames with the saturating mix of music and effects.

use vstd::prelude::*;

use crate::manager::PlaybackMessage;
use crate::mixer::{
    mix_mono_sample, mix_sample, mix_spec, org_frame, org_frame_spec, ORG_SILENCE, SILENCE,
};

verus! {

/// The speed factor meaning unchanged speed, in thousandths.
pub const SPEED_NORMAL: u32 = 1000;

/// Which renderer currently owns the output buffer.  Exactly one state holds
/// at any instant.
#[derive(Clone, Copy, PartialEq, Eq, Structural)]
pub enum PlaybackState {
    Stopped,
    PlayingOrg,
    PlayingOgg,
}

/// At most one saved snapshot exists at a time, tagged by the renderer that
/// produced it.
pub enum SavedPlaybackState<A, B> {
    Empty,
    Organya(A),
    Ogg(B),
}

/// The sequenced (tracker-style) music renderer, an opaque component.  Its
/// abstract position counts buffer entries rendered since the score's start;
/// a snapshot captures that position exactly, so that restoring it resumes
/// where the capture was made.
pub trait SequencedRenderer: Sized {
    type Song;

    type Snapshot;

    /// Abstract playback position: entries rendered since the start.
    spec fn pos(&self) -> nat;

    /// The position a snapshot captured.
    spec fn snap_pos(s: &Self::Snapshot) -> nat;

    fn start_song(&mut self, song: Self::Song)
        ensures
            final(self).pos() == 0,
    ;

    fn set_sample_rate(&mut self, rate: usize)
        requires
            1 <= rate,
        ensures
            final(self).pos() == old(self).pos(),
    ;

    fn render_to(&mut self, buf: &mut Vec<u16>) -> (n: usize)
        ensures
            final(buf)@.len() == old(buf)@.len(),
            n <= old(buf)@.len(),
            final(self).pos() == old(self).pos() + n,
    ;

    fn get_state(&self) -> (s: Self::Snapshot)
        ensures
            Self::snap_pos(&s) == self.pos(),
    ;

    fn set_state(&mut self, s: Self::Snapshot)
        ensures
            final(self).pos() == Self::snap_pos(&s),
    ;

    fn rewind(&mut self)
        ensures
            final(self).pos() == 0,
    ;
}

/// The streamed (decoder-driven) music renderer, an opaque component.  It
/// renders interleaved stereo entries, so it always writes an even count.
pub trait StreamedRenderer: Sized {
    type Source;

    type Snapshot;

    /// Abstract playback position: entries rendered since the start.
    spec fn pos(&self) -> nat;

    /// The position a snapshot captured.
    spec fn snap_pos(s: &Self::Snapshot) -> nat;

    fn start_single(&mut self, source: Self::Source)
        ensures
            final(self).pos() == 0,
    ;

    fn start_multi(&mut self, intro: Self::Source, loop_part: Self::Source)
        ensures
            final(self).pos() == 0,
    ;

    fn set_sample_rate(&mut self, rate: usize)
        requires
            1 <= rate,
        ensures
            final(self).pos() == old(self).pos(),
    ;

    fn render_to(&mut self, buf: &mut Vec<u16>) -> (n: usize)
        ensures
            final(buf)@.len() == old(buf)@.len(),
            n <= old(buf)@.len(),
            n % 2 == 0,
            final(self).pos() == old(self).pos() + n,
    ;

    fn get_state(&self) -> (s: Self::Snapshot)
        ensures
            Self::snap_pos(&s) == self.pos(),
    ;

    fn set_state(&mut self, s: Self::Snapshot)
        ensures
            final(self).pos() == Self::snap_pos(&s),
    ;

    fn rewind(&mut self)
        ensures
            final(self).pos() == 0,
    ;
}

/// The tone synthesizer, an opaque component that precomputes effect
/// waveforms and mixes the currently active effects into a scratch buffer.
/// `quiet` abstracts "no effect is active": mixing while quiet changes
/// nothing, and nothing but an effect trigger ends quietness.
pub trait EffectSynth: Sized {
    /// Whether no effect is active.
    spec fn quiet(&self) -> bool;

    fn create_samples(&mut self)
        ensures
            final(self).quiet() == old(self).quiet(),
    ;

    fn play_sfx(&mut self, id: u8)
        ensures
            final(self).quiet() ==> old(self).quiet(),
    ;

    fn mix(&mut self, buf: &mut Vec<u16>, rate: usize)
        requires
            1 <= rate,
        ensures
            final(buf)@.len() == old(buf)@.len(),
            old(self).quiet() ==> final(self).quiet() && final(buf)@ == old(buf)@,
    ;
}

/// The saved snapshot reduced to what it means: which renderer it belongs
/// to and the position it captured.
pub enum SavedModel {
    Empty,
    Organya(nat),
    Ogg(nat),
}

/// The abstract state of the engine: everything its transition contracts
/// speak of.
pub struct EngineModel {
    pub state: PlaybackState,
    pub saved: SavedModel,
    pub speed: u32,
    pub org_pos: nat,
    pub ogg_pos: nat,
    /// Entries rendered into the music buffer but not yet consumed.
    pub buffered: nat,
}

/// The audible position of the model: what has actually left the music
/// buffer, in renderer entries.
pub open spec fn played(m: EngineModel) -> nat {
    match m.state {
        PlaybackState::Stopped => 0,
        PlaybackState::PlayingOrg => (m.org_pos - m.buffered) as nat,
        PlaybackState::PlayingOgg => (m.ogg_pos - m.buffered) as nat,
    }
}

/// A command reduced to what the transition relation needs.
pub enum MsgModel {
    Stop,
    PlayOrganya,
    PlayOggSingle,
    PlayOggMulti,
    PlaySample,
    SetSpeed(u32),
    SaveState,
    RestoreState,
}

/// The command a message stands for.
pub open spec fn msg_model<S, O>(msg: PlaybackMessage<S, O>) -> MsgModel {
    match msg {
        PlaybackMessage::Stop => MsgModel::Stop,
        PlaybackMessage::PlayOrganyaSong(_) => MsgModel::PlayOrganya,
        PlaybackMessage::PlayOggSongSinglePart(_) => MsgModel::PlayOggSingle,
        PlaybackMessage::PlayOggSongMultiPart(_, _) => MsgModel::PlayOggMulti,
        PlaybackMessage::PlaySample(_) => MsgModel::PlaySample,
        PlaybackMessage::SetSpeed(s) => MsgModel::SetSpeed(s),
        PlaybackMessage::SaveState => MsgModel::SaveState,
        PlaybackMessage::RestoreState => MsgModel::RestoreState,
    }
}

/// How handling one command transforms the abstract engine state.  Starting
/// a source or restoring a snapshot re-renders one batch of unknown size,
/// which reappears as the new `buffered` amount.
pub open spec fn engine_step(pre: EngineModel, post: EngineModel, msg: MsgModel) -> bool {
    match msg {
        MsgModel::Stop => {
            &&& post.state is Stopped
            &&& post.saved == (if pre.state is Stopped {
                SavedModel::Empty
            } else {
                pre.saved
            })
            &&& post.speed == pre.speed
            &&& post.org_pos == pre.org_pos
            &&& post.ogg_pos == pre.ogg_pos
            &&& post.buffered == pre.buffered
        },
        MsgModel::PlaySample => post == pre,
        MsgModel::SetSpeed(s) => {
            &&& post.state == pre.state
            &&& post.saved == pre.saved
            &&& post.speed == s
            &&& post.org_pos == pre.org_pos
            &&& post.ogg_pos == pre.ogg_pos
            &&& post.buffered == pre.buffered
        },
        MsgModel::SaveState => {
            &&& post.state == pre.state
            &&& post.saved == (match pre.state {
                PlaybackState::Stopped => SavedModel::Empty,
                PlaybackState::PlayingOrg => SavedModel::Organya(pre.org_pos),
                PlaybackState::PlayingOgg => SavedModel::Ogg(pre.ogg_pos),
            })
            &&& post.speed == pre.speed
            &&& post.org_pos == pre.org_pos
            &&& post.ogg_pos == pre.ogg_pos
            &&& post.buffered == pre.buffered
        },
        MsgModel::RestoreState => {
            match pre.saved {
                SavedModel::Empty => post == pre,
                SavedModel::Organya(p) => {
                    let resume: nat = if pre.state is Stopped {
                        0
                    } else {
                        p
                    };
                    &&& post.state is PlayingOrg
                    &&& post.saved is Empty
                    &&& post.speed == pre.speed
                    &&& post.ogg_pos == pre.ogg_pos
                    &&& post.org_pos == resume + post.buffered
                },
                SavedModel::Ogg(p) => {
                    let resume: nat = if pre.state is Stopped {
                        0
                    } else {
                        p
                    };
                    &&& post.state is PlayingOgg
                    &&& post.saved is Empty
                    &&& post.speed == pre.speed
                    &&& post.org_pos == pre.org_pos
                    &&& post.ogg_pos == resume + post.buffered
                },
            }
        },
        MsgModel::PlayOrganya => {
            &&& post.state is PlayingOrg
            &&& post.saved == (if pre.state is Stopped {
                SavedModel::Empty
            } else {
                pre.saved
            })
            &&& post.speed == pre.speed
            &&& post.ogg_pos == pre.ogg_pos
            &&& post.org_pos == post.buffered
        },
        MsgModel::PlayOggSingle => {
            &&& post.state is PlayingOgg
            &&& post.saved == (if pre.state is Stopped {
                SavedModel::Empty
            } else {
                pre.saved
            })
            &&& post.speed == pre.speed
            &&& post.org_pos == pre.org_pos
            &&& post.ogg_pos == post.buffered
        },
        MsgModel::PlayOggMulti => {
            &&& post.state is PlayingOgg
            &&& post.saved == (if pre.state is Stopped {
                SavedModel::Empty
            } else {
                pre.saved
            })
            &&& post.speed == pre.speed
            &&& post.org_pos == pre.org_pos
            &&& post.ogg_pos == post.buffered
        },
    }
}

/// Fills the first `count` entries of `buf` with `value`.
fn fill_prefix(buf: &mut Vec<u16>, count: usize, value: u16)
    requires
        count <= old(buf)@.len(),
    ensures
        final(buf)@.len() == old(buf)@.len(),
        forall|i: int| 0 <= i < count ==> final(buf)@[i] == value,
        forall|i: int| count <= i < old(buf)@.len() ==> final(buf)@[i] == old(buf)@[i],
{
    let mut i: usize = 0;
    while i < count
        invariant
            i <= count,
            count <= buf@.len(),
            buf@.len() == old(buf)@.len(),
            forall|j: int| 0 <= j < i ==> buf@[j] == value,
            forall|j: int| i <= j < old(buf)@.len() ==> buf@[j] == old(buf)@[j],
        decreases count - i,
    {
        buf[i] = value;
        i += 1;
    }
}

/// The effective renderer sample rate for a hardware rate and a speed
/// factor in thousandths, floored at one.
pub open spec fn effective_rate_spec(sample_rate: int, speed: int) -> int {
    let q = sample_rate * 1000 / speed;
    if q < 1 {
        1
    } else {
        q
    }
}

fn effective_rate(sample_rate: usize, speed: u32) -> (r: usize)
    requires
        100 <= sample_rate <= 0x100000,
        1 <= speed,
    ensures
        1 <= r,
        r == effective_rate_spec(sample_rate as int, speed as int),
{
    let q = (sample_rate * 1000) / (speed as usize);
    if q < 1 {
        1
    } else {
        q
    }
}

/// The playback engine.  One exists per audio thread; it owns the renderers
/// and all real-time state exclusively.
pub struct PlaybackEngine<SR: SequencedRenderer, TR: StreamedRenderer, FX: EffectSynth> {
    state: PlaybackState,
    saved: SavedPlaybackState<SR::Snapshot, TR::Snapshot>,
    speed: u32,
    sample_rate: usize,
    org: SR,
    ogg: TR,
    pixtone: FX,
    bgm_buf: Vec<u16>,
    pxt_buf: Vec<u16>,
    bgm_index: usize,
    pxt_index: usize,
    samples: usize,
}

impl<SR: SequencedRenderer, TR: StreamedRenderer, FX: EffectSynth> PlaybackEngine<SR, TR, FX> {
    /// Entries rendered into the music buffer and not yet consumed.
    pub closed spec fn buffered(&self) -> nat {
        if self.bgm_index <= self.samples {
            (self.samples - self.bgm_index) as nat
        } else {
            0
        }
    }

    /// The engine's well-formedness: buffer geometry, cursor bounds, a
    /// positive speed, and the consumed part of the music buffer never
    /// running ahead of the active renderer.
    pub closed spec fn wf(&self) -> bool {
        &&& 1 <= self.pxt_buf@.len()
        &&& self.bgm_buf@.len() == 2 * self.pxt_buf@.len()
        &&& self.samples <= self.bgm_buf@.len()
        &&& self.pxt_index < self.pxt_buf@.len()
        &&& 1 <= self.speed
        &&& 100 <= self.sample_rate <= 0x100000
        &&& (self.state is PlayingOgg ==> self.samples % 2 == 0 && self.bgm_index % 2 == 0)
        &&& (self.state is PlayingOrg ==> self.buffered() <= self.org.pos())
        &&& (self.state is PlayingOgg ==> self.buffered() <= self.ogg.pos())
    }

    /// The abstract state the transition contracts speak of.
    pub closed spec fn model(&self) -> EngineModel {
        EngineModel {
            state: self.state,
            saved: match self.saved {
                SavedPlaybackState::Empty => SavedModel::Empty,
                SavedPlaybackState::Organya(s) => SavedModel::Organya(SR::snap_pos(&s)),
                SavedPlaybackState::Ogg(s) => SavedModel::Ogg(TR::snap_pos(&s)),
            },
            speed: self.speed,
            org_pos: self.org.pos(),
            ogg_pos: self.ogg.pos(),
            buffered: self.buffered(),
        }
    }

    /// Whether the effect layer is silent: no effect active and only
    /// mid-scale values left to consume in the effect buffer.
    pub closed spec fn effects_silent(&self) -> bool {
        &&& self.pixtone.quiet()
        &&& forall|i: int|
            self.pxt_index <= i < self.pxt_buf@.len() ==> self.pxt_buf@[i] == SILENCE
    }

    /// The rendered music entries not yet consumed, in consumption order.
    pub closed spec fn music_window(&self) -> Seq<u16> {
        if self.bgm_index <= self.samples && self.samples <= self.bgm_buf@.len() {
            self.bgm_buf@.subrange(self.bgm_index as int, self.samples as int)
        } else {
            Seq::empty()
        }
    }

    /// The effect entries not yet consumed, in consumption order.
    pub closed spec fn effect_window(&self) -> Seq<u16> {
        self.pxt_buf@.subrange(self.pxt_index as int, self.pxt_buf@.len() as int)
    }

    /// The music pair frame number `f` of a rendering call will consume,
    /// while it stays within the already-rendered window.
    pub open spec fn music_frame(&self, f: int) -> (u16, u16) {
        if self.model().state is PlayingOrg {
            org_frame_spec(self.music_window()[f])
        } else {
            (self.music_window()[2 * f], self.music_window()[2 * f + 1])
        }
    }

    /// Whether a rendering call of `len` output entries over `channels`
    /// channels consumes only already-rendered music and effect entries:
    /// stereo frames, music playing with enough buffered, and no effect
    /// cycle wrap.
    pub open spec fn fully_buffered(&self, len: int, channels: int) -> bool {
        &&& channels == 2
        &&& len % 2 == 0
        &&& !(self.model().state is Stopped)
        &&& (self.model().state is PlayingOrg ==> len / 2 <= self.music_window().len())
        &&& (self.model().state is PlayingOgg ==> len <= self.music_window().len())
        &&& len / 2 + 1 <= self.effect_window().len()
    }

    /// Builds the engine around its three renderers, for output hardware
    /// running at `sample_rate`.  Music buffers cover ten milliseconds.
    pub fn new(org: SR, ogg: TR, pixtone: FX, sample_rate: usize) -> (r: PlaybackEngine<
        SR,
        TR,
        FX,
    >)
        requires
            100 <= sample_rate <= 0x100000,
        ensures
            r.wf(),
            r.model().state is Stopped,
            r.model().saved is Empty,
            r.model().speed == SPEED_NORMAL,
            pixtone.quiet() ==> r.effects_silent(),
    {
        let mut org = org;
        let mut ogg = ogg;
        let mut pixtone = pixtone;
        org.set_sample_rate(sample_rate);
        ogg.set_sample_rate(sample_rate);
        pixtone.create_samples();
        let buf_size = sample_rate * 10 / 1000;
        let mut bgm_buf: Vec<u16> = vec![ORG_SILENCE; buf_size * 2];
        let mut pxt_buf: Vec<u16> = vec![SILENCE; buf_size];
        pixtone.mix(&mut pxt_buf, sample_rate);
        PlaybackEngine {
            state: PlaybackState::Stopped,
            saved: SavedPlaybackState::Empty,
            speed: SPEED_NORMAL,
            sample_rate,
            org,
            ogg,
            pixtone,
            bgm_buf,
            pxt_buf,
            bgm_index: 0,
            pxt_index: 0,
            samples: 0,
        }
    }

    /// The current playback state, for observers.
    pub fn playback_state(&self) -> (r: PlaybackState)
        ensures
            r == self.model().state,
    {
        self.state
    }

    /// The current speed factor in thousandths, for observers.
    pub fn current_speed(&self) -> (r: u32)
        ensures
            r == self.model().speed,
    {
        self.speed
    }

    /// Handles one drained command to completion.  The abstract effect is
    /// `engine_step`; commands other than an effect trigger leave a silent
    /// effect layer silent.
    pub fn handle_message(&mut self, msg: PlaybackMessage<SR::Song, TR::Source>)
        requires
            old(self).wf(),
            msg matches PlaybackMessage::SetSpeed(s) ==> 1 <= s,
        ensures
            final(self).wf(),
            engine_step(old(self).model(), final(self).model(), msg_model(msg)),
            !(msg is PlaySample) ==> (old(self).effects_silent()
                ==> final(self).effects_silent()),
    {
        match msg {
            PlaybackMessage::PlayOrganyaSong(song) => {
                if self.state == PlaybackState::Stopped {
                    self.saved = SavedPlaybackState::Empty;
                }
                self.org.start_song(song);
                fill_prefix(&mut self.bgm_buf, self.samples, ORG_SILENCE);
                self.samples = self.org.render_to(&mut self.bgm_buf);
                self.bgm_index = 0;
                self.state = PlaybackState::PlayingOrg;
            },
            PlaybackMessage::PlayOggSongSinglePart(source) => {
                if self.state == PlaybackState::Stopped {
                    self.saved = SavedPlaybackState::Empty;
                }
                self.ogg.start_single(source);
                fill_prefix(&mut self.bgm_buf, self.samples, SILENCE);
                self.samples = self.ogg.render_to(&mut self.bgm_buf);
                self.bgm_index = 0;
                self.state = PlaybackState::PlayingOgg;
            },
            PlaybackMessage::PlayOggSongMultiPart(intro, loop_part) => {
                if self.state == PlaybackState::Stopped {
                    self.saved = SavedPlaybackState::Empty;
                }
                self.ogg.start_multi(intro, loop_part);
                fill_prefix(&mut self.bgm_buf, self.samples, SILENCE);
                self.samples = self.ogg.render_to(&mut self.bgm_buf);
                self.bgm_index = 0;
                self.state = PlaybackState::PlayingOgg;
            },
            PlaybackMessage::PlaySample(id) => {
                self.pixtone.play_sfx(id);
            },
            PlaybackMessage::Stop => {
                if self.state == PlaybackState::Stopped {
                    self.saved = SavedPlaybackState::Empty;
                }
                self.state = PlaybackState::Stopped;
            },
            PlaybackMessage::SetSpeed(new_speed) => {
                self.speed = new_speed;
                let rate = effective_rate(self.sample_rate, new_speed);
                self.ogg.set_sample_rate(rate);
                self.org.set_sample_rate(rate);
            },
            PlaybackMessage::SaveState => {
                self.saved = match self.state {
                    PlaybackState::Stopped => SavedPlaybackState::Empty,
                    PlaybackState::PlayingOrg => SavedPlaybackState::Organya(
                        self.org.get_state(),
                    ),
                    PlaybackState::PlayingOgg => SavedPlaybackState::Ogg(self.ogg.get_state()),
                };
            },
            PlaybackMessage::RestoreState => {
                let mut taken = SavedPlaybackState::Empty;
                core::mem::swap(&mut taken, &mut self.saved);
                match taken {
                    SavedPlaybackState::Empty => {},
                    SavedPlaybackState::Organya(snapshot) => {
                        self.org.set_state(snapshot);
                        if self.state == PlaybackState::Stopped {
                            self.org.rewind();
                        }
                        fill_prefix(&mut self.bgm_buf, self.samples, ORG_SILENCE);
                        self.samples = self.org.render_to(&mut self.bgm_buf);
                        self.bgm_index = 0;
                        self.state = PlaybackState::PlayingOrg;
                    },
                    SavedPlaybackState::Ogg(snapshot) => {
                        self.ogg.set_state(snapshot);
                        if self.state == PlaybackState::Stopped {
                            self.ogg.rewind();
                        }
                        fill_prefix(&mut self.bgm_buf, self.samples, SILENCE);
                        self.samples = self.ogg.render_to(&mut self.bgm_buf);
                        self.bgm_index = 0;
                        self.state = PlaybackState::PlayingOgg;
                    },
                }
            },
        }
    }

    /// Produces the next background-music stereo pair, consuming the render
    /// buffer and re-invoking the active renderer when it runs dry.
    fn next_bgm_frame(&mut self) -> (r: (u16, u16))
        requires
            old(self).wf(),
        ensures
            final(self).wf(),
            final(self).model().state == old(self).model().state,
            final(self).model().saved == old(self).model().saved,
            final(self).model().speed == old(self).model().speed,
            final(self).pxt_buf == old(self).pxt_buf,
            final(self).pxt_index == old(self).pxt_index,
            final(self).pixtone == old(self).pixtone,
            old(self).state is Stopped ==> r == (SILENCE, SILENCE) && *final(self) == *old(self),
            old(self).state is PlayingOrg && old(self).bgm_index < old(self).samples ==> (r
                == org_frame_spec(old(self).bgm_buf@[old(self).bgm_index as int])
                && final(self).bgm_index == old(self).bgm_index + 1
                && final(self).bgm_buf == old(self).bgm_buf
                && final(self).samples == old(self).samples),
            old(self).state is PlayingOgg && old(self).bgm_index < old(self).samples ==> (r == (
                old(self).bgm_buf@[old(self).bgm_index as int],
                old(self).bgm_buf@[old(self).bgm_index as int + 1],
            )
                && final(self).bgm_index == old(self).bgm_index + 2
                && final(self).bgm_buf == old(self).bgm_buf
                && final(self).samples == old(self).samples),
            old(self).state is PlayingOrg && old(self).bgm_index >= old(self).samples ==> (
            final(self).bgm_index == 1
                && r == org_frame_spec(final(self).bgm_buf@[0])
                && final(self).model().org_pos == old(self).model().org_pos + final(self).samples),
            old(self).state is PlayingOgg && old(self).bgm_index >= old(self).samples ==> (
            final(self).bgm_index == 2
                && r == (final(self).bgm_buf@[0], final(self).bgm_buf@[1])
                && final(self).model().ogg_pos == old(self).model().ogg_pos + final(self).samples),
    {
        match self.state {
            PlaybackState::Stopped => (SILENCE, SILENCE),
            PlaybackState::PlayingOrg => {
                if self.bgm_index < self.samples {
                    let sample = self.bgm_buf[self.bgm_index];
                    self.bgm_index = self.bgm_index + 1;
                    org_frame(sample)
                } else {
                    fill_prefix(&mut self.bgm_buf, self.samples, ORG_SILENCE);
                    let n = self.org.render_to(&mut self.bgm_buf);
                    self.samples = n;
                    self.bgm_index = 1;
                    org_frame(self.bgm_buf[0])
                }
            },
            PlaybackState::PlayingOgg => {
                if self.bgm_index < self.samples {
                    let left = self.bgm_buf[self.bgm_index];
                    let right = self.bgm_buf[self.bgm_index + 1];
                    self.bgm_index = self.bgm_index + 2;
                    (left, right)
                } else {
                    fill_prefix(&mut self.bgm_buf, self.samples, SILENCE);
                    let n = self.ogg.render_to(&mut self.bgm_buf);
                    self.samples = n;
                    self.bgm_index = 2;
                    (self.bgm_buf[0], self.bgm_buf[1])
                }
            },
        }
    }

    /// Advances the effect-buffer cursor, re-mixing the synthesizer into a
    /// cleared buffer each time it wraps, at the speed-scaled rate.
    fn advance_pxt(&mut self)
        requires
            old(self).wf(),
        ensures
            final(self).wf(),
            final(self).state == old(self).state,
            final(self).saved == old(self).saved,
            final(self).speed == old(self).speed,
            final(self).sample_rate == old(self).sample_rate,
            final(self).org == old(self).org,
            final(self).ogg == old(self).ogg,
            final(self).bgm_buf == old(self).bgm_buf,
            final(self).bgm_index == old(self).bgm_index,
            final(self).samples == old(self).samples,
            old(self).effects_silent() ==> final(self).effects_silent(),
            old(self).pxt_index + 1 < old(self).pxt_buf@.len() ==> (final(self).pxt_index == old(
                self,
            ).pxt_index + 1
                && final(self).pxt_buf == old(self).pxt_buf
                && final(self).pixtone == old(self).pixtone),
    {
        let pxt_len = self.pxt_buf.len();
        if self.pxt_index + 1 < pxt_len {
            self.pxt_index = self.pxt_index + 1;
        } else {
            self.pxt_index = 0;
            fill_prefix(&mut self.pxt_buf, pxt_len, SILENCE);
            let rate = effective_rate(self.sample_rate, self.speed);
            self.pixtone.mix(&mut self.pxt_buf, rate);
        }
    }

    /// Fills one hardware buffer: for each frame, one music pair, one effect
    /// sample, and their saturating mix — stereo when the frame has room for
    /// two channels, an averaged mono sample otherwise.  Frame slots beyond
    /// the first two channels are left untouched: the mix addresses mono and
    /// stereo hardware.  While the engine is stopped and the effect layer
    /// silent, every produced sample is the mid-scale silent value.
    pub fn render(&mut self, out: &mut Vec<u16>, channels: usize)
        requires
            old(self).wf(),
            1 <= channels,
        ensures
            final(self).wf(),
            final(out)@.len() == old(out)@.len(),
            final(self).model().state == old(self).model().state,
            final(self).model().saved == old(self).model().saved,
            final(self).model().speed == old(self).model().speed,
            (old(self).model().state is Stopped && old(self).effects_silent() && channels <= 2)
                ==> (final(self).effects_silent() && forall|j: int|
                0 <= j < final(out)@.len() ==> final(out)@[j] == SILENCE),
            old(self).fully_buffered(old(out)@.len() as int, channels as int) ==> forall|f: int|
                0 <= f < old(out)@.len() / 2 ==> (final(out)@[2 * f] == mix_spec(
                    old(self).music_frame(f).0,
                    old(self).effect_window()[f],
                ) && final(out)@[2 * f + 1] == mix_spec(
                    old(self).music_frame(f).1,
                    old(self).effect_window()[f],
                )),
    {
        let len = out.len();
        let ghost exact = old(self).fully_buffered(len as int, channels as int);
        let mut idx: usize = 0;
        while idx < len
            invariant
                self.wf(),
                1 <= channels,
                out@.len() == len,
                idx <= len,
                exact == old(self).fully_buffered(len as int, channels as int),
                self.model().state == old(self).model().state,
                self.model().saved == old(self).model().saved,
                self.model().speed == old(self).model().speed,
                (old(self).model().state is Stopped && old(self).effects_silent() && channels
                    <= 2) ==> (self.effects_silent() && forall|j: int|
                    0 <= j < idx ==> out@[j] == SILENCE),
                exact ==> (idx % 2 == 0 && self.state == old(self).state && self.bgm_buf == old(
                    self,
                ).bgm_buf && self.samples == old(self).samples && self.pxt_buf == old(self).pxt_buf
                    && self.pxt_index == old(self).pxt_index + idx / 2 && self.bgm_index == old(
                    self,
                ).bgm_index + (if old(self).state is PlayingOrg {
                    idx as int / 2
                } else {
                    idx as int
                }) && forall|f: int|
                    0 <= f < idx / 2 ==> (out@[2 * f] == mix_spec(
                        old(self).music_frame(f).0,
                        old(self).effect_window()[f],
                    ) && out@[2 * f + 1] == mix_spec(
                        old(self).music_frame(f).1,
                        old(self).effect_window()[f],
                    ))),
            decreases len - idx,
        {
            let rem = len - idx;
            proof {
                if exact {
                    assert(len % 2 == 0 && idx % 2 == 0);
                    assert(rem >= 2);
                    assert(old(self).bgm_index <= old(self).samples) by {
                        if old(self).state is PlayingOrg || old(self).state is PlayingOgg {
                            assert(old(self).music_window().len() >= 1);
                        }
                    }
                }
            }
            let pair = self.next_bgm_frame();
            let pxt = self.pxt_buf[self.pxt_index];
            self.advance_pxt();
            if channels >= 2 && rem >= 2 {
                let left = mix_sample(pair.0, pxt);
                let right = mix_sample(pair.1, pxt);
                out[idx] = left;
                out[idx + 1] = right;
            } else {
                let mono = mix_mono_sample(pair.0, pair.1, pxt);
                out[idx] = mono;
            }
            let step = if channels < rem {
                channels
            } else {
                rem
            };
            idx = idx + step;
        }
    }
}

/// Saving and then restoring, with nothing mutating playback in between,
/// resumes exactly at the position the snapshot captured — not at zero —
/// whenever music was playing at the save.
pub proof fn lemma_save_restore_resumes(pre: EngineModel, mid: EngineModel, post: EngineModel)
    requires
        engine_step(pre, mid, MsgModel::SaveState),
        engine_step(mid, post, MsgModel::RestoreState),
        !(pre.state is Stopped),
    ensures
        post.state == pre.state,
        played(post) == (match pre.state {
            PlaybackState::PlayingOrg => pre.org_pos,
            PlaybackState::PlayingOgg => pre.ogg_pos,
            PlaybackState::Stopped => 0,
        }),
{
}

/// Restoring a snapshot onto a stopped engine always rewinds to the start,
/// never resumes mid-stream.
pub proof fn lemma_restore_onto_stopped_rewinds(pre: EngineModel, post: EngineModel)
    requires
        engine_step(pre, post, MsgModel::RestoreState),
        pre.state is Stopped,
        !(pre.saved is Empty),
    ensures
        played(post) == 0,
{
}

/// A request for silence: consuming the snapshot command and then the stop
/// command always leaves the engine stopped.
pub proof fn lemma_save_then_stop_silences(pre: EngineModel, mid: EngineModel, post: EngineModel)
    requires
        engine_step(pre, mid, MsgModel::SaveState),
        engine_step(mid, post, MsgModel::Stop),
    ensures
        post.state is Stopped,
{
}

} // verus!
