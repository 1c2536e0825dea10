//! The control-thread facade: resolves which source a song request plays
//! from, tracks the current and previous song ids, and produces the commands
//! the playback engine consumes.  The caller delivers the commands; every
//! command is consumed in order, at most once.

use vstd::prelude::*;

verus! {

/// A command for the playback engine.  `S` is the sequenced song source,
/// `O` one streamed (Ogg) source.  Each command owns the data it carries.
pub enum PlaybackMessage<S, O> {
    Stop,
    PlayOrganyaSong(S),
    PlayOggSongSinglePart(O),
    PlayOggSongMultiPart(O, O),
    PlaySample(u8),
    SetSpeed(u32),
    SaveState,
    RestoreState,
}

/// A song source that resolution produced, ready to start.
pub enum LoadedSong<S, O> {
    Organya(S),
    OggSingle(O),
    OggMulti(O, O),
}

/// An error the sound facade surfaces to its caller.
pub enum SoundError {
    /// A parameter was outside its allowed range.
    InvalidValue,
    /// A resource existed but could not be decoded; the payload describes
    /// the decoder's complaint.
    ResourceLoadError(String),
}

/// Control-thread bookkeeping of which song plays and which played before.
/// This is advisory metadata; the playback engine's own state is what
/// actually sounds.
pub struct SoundManager {
    prev_song_id: usize,
    current_song_id: usize,
}

impl SoundManager {
    /// The id of the song currently requested; `0` means silence.
    pub closed spec fn current(&self) -> usize {
        self.current_song_id
    }

    /// The id of the song that played before the last transition.
    pub closed spec fn previous(&self) -> usize {
        self.prev_song_id
    }

    pub fn new() -> (r: SoundManager)
        ensures
            r.current() == 0,
            r.previous() == 0,
    {
        SoundManager { prev_song_id: 0, current_song_id: 0 }
    }

    pub fn current_song(&self) -> (r: usize)
        ensures
            r == self.current(),
    {
        self.current_song_id
    }

    /// Fire-and-forget effect trigger; never fails and changes no state.
    pub fn play_sfx<S, O>(&self, id: u8) -> (m: PlaybackMessage<S, O>)
        ensures
            m == PlaybackMessage::<S, O>::PlaySample(id),
    {
        PlaybackMessage::PlaySample(id)
    }

    /// Requests a state snapshot and mirrors it in the id bookkeeping.
    pub fn save_state<S, O>(&mut self) -> (m: PlaybackMessage<S, O>)
        ensures
            final(self).current() == old(self).current(),
            final(self).previous() == old(self).current(),
            m == PlaybackMessage::<S, O>::SaveState,
    {
        self.prev_song_id = self.current_song_id;
        PlaybackMessage::SaveState
    }

    /// Requests resumption of the saved snapshot and mirrors it in the id
    /// bookkeeping.
    pub fn restore_state<S, O>(&mut self) -> (m: PlaybackMessage<S, O>)
        ensures
            final(self).current() == old(self).previous(),
            final(self).previous() == old(self).previous(),
            m == PlaybackMessage::<S, O>::RestoreState,
    {
        self.current_song_id = self.prev_song_id;
        PlaybackMessage::RestoreState
    }

    /// A non-positive speed factor is rejected before any command is made,
    /// so the effective playback rate stays unchanged; a positive factor
    /// becomes a speed command.  The factor is in thousandths, the library's
    /// speed resolution: factors below one thousandth are not representable
    /// and are rejected with the non-positive ones.
    pub fn set_speed<S, O>(&self, speed: u32) -> (r: Result<PlaybackMessage<S, O>, SoundError>)
        ensures
            speed == 0 <==> r is Err,
            speed == 0 ==> r == Result::<PlaybackMessage<S, O>, SoundError>::Err(
                SoundError::InvalidValue,
            ),
            speed > 0 ==> r == Result::<PlaybackMessage<S, O>, SoundError>::Ok(
                PlaybackMessage::<S, O>::SetSpeed(speed),
            ),
    {
        if speed == 0 {
            return Err(SoundError::InvalidValue);
        }
        Ok(PlaybackMessage::SetSpeed(speed))
    }

    /// Commits a song request.  `loaded` is the outcome of resolving the
    /// request over the candidate list: the first candidate whose files all
    /// exist and decode, or `None` when every candidate is missing or fails
    /// to decode (or the id is unknown).
    ///
    /// Requesting the song that already plays changes nothing.  Requesting
    /// id `0` records the previous song and orders a snapshot followed by
    /// silence.  A resolved song records the previous song and orders a
    /// snapshot followed by the matching start command.  A request that
    /// resolved to nothing leaves playback and bookkeeping unchanged: a
    /// missing or corrupt song never aborts the caller.
    pub fn play_song<S, O>(&mut self, song_id: usize, loaded: Option<LoadedSong<S, O>>) -> (msgs:
        Vec<PlaybackMessage<S, O>>)
        ensures
            song_id == old(self).current() ==> *final(self) == *old(self) && msgs@ =~= Seq::<
                PlaybackMessage<S, O>,
            >::empty(),
            song_id != old(self).current() && song_id == 0 ==> final(self).previous() == old(
                self,
            ).current() && final(self).current() == 0 && msgs@ =~= seq![
                PlaybackMessage::<S, O>::SaveState,
                PlaybackMessage::<S, O>::Stop,
            ],
            song_id != old(self).current() && song_id != 0 && loaded is None ==> *final(self)
                == *old(self) && msgs@ =~= Seq::<PlaybackMessage<S, O>>::empty(),
            (song_id != old(self).current() && song_id != 0) ==> (loaded matches Some(song) ==> (
            final(self).previous() == old(self).current() && final(self).current() == song_id
                && msgs@ =~= seq![PlaybackMessage::<S, O>::SaveState, start_message(song)])),
    {
        let mut msgs: Vec<PlaybackMessage<S, O>> = Vec::new();
        if song_id == self.current_song_id {
            return msgs;
        }
        if song_id == 0 {
            self.prev_song_id = self.current_song_id;
            self.current_song_id = 0;
            msgs.push(PlaybackMessage::SaveState);
            msgs.push(PlaybackMessage::Stop);
            return msgs;
        }
        match loaded {
            None => msgs,
            Some(song) => {
                self.prev_song_id = self.current_song_id;
                self.current_song_id = song_id;
                msgs.push(PlaybackMessage::SaveState);
                match song {
                    LoadedSong::Organya(s) => msgs.push(PlaybackMessage::PlayOrganyaSong(s)),
                    LoadedSong::OggSingle(o) => msgs.push(PlaybackMessage::PlayOggSongSinglePart(o)),
                    LoadedSong::OggMulti(a, b) => msgs.push(
                        PlaybackMessage::PlayOggSongMultiPart(a, b),
                    ),
                }
                msgs
            },
        }
    }
}

/// The start command a resolved song becomes.
pub open spec fn start_message<S, O>(song: LoadedSong<S, O>) -> PlaybackMessage<S, O> {
    match song {
        LoadedSong::Organya(s) => PlaybackMessage::PlayOrganyaSong(s),
        LoadedSong::OggSingle(o) => PlaybackMessage::PlayOggSongSinglePart(o),
        LoadedSong::OggMulti(a, b) => PlaybackMessage::PlayOggSongMultiPart(a, b),
    }
}

} // verus!
