//! Minimal verified implementations of the renderer ports: table-driven
//! music renderers and a flat tone synthesizer.  They stand in for the
//! external score synthesizer, stream decoder and procedural tone engine
//! where those are not wired, and give the engine deterministic components.

use vstd::prelude::*;

use crate::engine::{EffectSynth, SequencedRenderer, StreamedRenderer};

verus! {

/// A resume point of a table renderer: the table cursor and the abstract
/// position it stands for.
pub struct TableSnapshot {
    index: usize,
    position: Ghost<nat>,
}

/// A sequenced renderer whose score is a wave table it loops over.
pub struct TableSequencer {
    table: Vec<u16>,
    index: usize,
    rate: usize,
    position: Ghost<nat>,
}

impl TableSequencer {
    pub fn new() -> (r: TableSequencer)
        ensures
            r.pos() == 0,
    {
        TableSequencer { table: Vec::new(), index: 0, rate: 1, position: Ghost(0) }
    }
}

impl SequencedRenderer for TableSequencer {
    type Song = Vec<u16>;

    type Snapshot = TableSnapshot;

    closed spec fn pos(&self) -> nat {
        self.position@
    }

    closed spec fn snap_pos(s: &TableSnapshot) -> nat {
        s.position@
    }

    fn start_song(&mut self, song: Vec<u16>) {
        self.table = song;
        self.index = 0;
        self.position = Ghost(0);
    }

    fn set_sample_rate(&mut self, rate: usize) {
        self.rate = rate;
    }

    fn render_to(&mut self, buf: &mut Vec<u16>) -> (n: usize) {
        let len = self.table.len();
        if len == 0 {
            return 0;
        }
        let n = buf.len();
        let mut idx: usize = if self.index < len {
            self.index
        } else {
            0
        };
        let mut i: usize = 0;
        while i < n
            invariant
                i <= n,
                idx < len,
                len == self.table@.len(),
                buf@.len() == n,
            decreases n - i,
        {
            let value = self.table[idx];
            buf[i] = value;
            idx = idx + 1;
            if idx == len {
                idx = 0;
            }
            i += 1;
        }
        self.index = idx;
        self.position = Ghost((self.position@ + n) as nat);
        n
    }

    fn get_state(&self) -> (s: TableSnapshot) {
        TableSnapshot { index: self.index, position: Ghost(self.position@) }
    }

    fn set_state(&mut self, s: TableSnapshot) {
        self.index = s.index;
        self.position = Ghost(s.position@);
    }

    fn rewind(&mut self) {
        self.index = 0;
        self.position = Ghost(0);
    }
}

/// A streamed renderer over pre-decoded interleaved stereo samples: its
/// source is the sample table itself, and a dual-part source plays the
/// intro table into the looping table.
pub struct TableStream {
    table: Vec<u16>,
    index: usize,
    rate: usize,
    position: Ghost<nat>,
}

impl TableStream {
    pub fn new() -> (r: TableStream)
        ensures
            r.pos() == 0,
    {
        TableStream { table: Vec::new(), index: 0, rate: 1, position: Ghost(0) }
    }
}

impl StreamedRenderer for TableStream {
    type Source = Vec<u16>;

    type Snapshot = TableSnapshot;

    closed spec fn pos(&self) -> nat {
        self.position@
    }

    closed spec fn snap_pos(s: &TableSnapshot) -> nat {
        s.position@
    }

    fn start_single(&mut self, source: Vec<u16>) {
        self.table = source;
        self.index = 0;
        self.position = Ghost(0);
    }

    fn start_multi(&mut self, intro: Vec<u16>, loop_part: Vec<u16>) {
        let mut table = intro;
        let mut rest = loop_part;
        table.append(&mut rest);
        self.table = table;
        self.index = 0;
        self.position = Ghost(0);
    }

    fn set_sample_rate(&mut self, rate: usize) {
        self.rate = rate;
    }

    fn render_to(&mut self, buf: &mut Vec<u16>) -> (n: usize) {
        let len = self.table.len();
        if len == 0 {
            return 0;
        }
        let n = buf.len() - buf.len() % 2;
        let mut idx: usize = if self.index < len {
            self.index
        } else {
            0
        };
        let mut i: usize = 0;
        while i < n
            invariant
                i <= n,
                idx < len,
                len == self.table@.len(),
                n <= buf@.len(),
                buf@.len() == old(buf)@.len(),
            decreases n - i,
        {
            let value = self.table[idx];
            buf[i] = value;
            idx = idx + 1;
            if idx == len {
                idx = 0;
            }
            i += 1;
        }
        self.index = idx;
        self.position = Ghost((self.position@ + n) as nat);
        n
    }

    fn get_state(&self) -> (s: TableSnapshot) {
        TableSnapshot { index: self.index, position: Ghost(self.position@) }
    }

    fn set_state(&mut self, s: TableSnapshot) {
        self.index = s.index;
        self.position = Ghost(s.position@);
    }

    fn rewind(&mut self) {
        self.index = 0;
        self.position = Ghost(0);
    }
}

/// A synthesizer that holds a constant level on every slot while any effect
/// is active, and is silent otherwise.
pub struct FlatToneSynth {
    active: bool,
    level: u16,
}

impl FlatToneSynth {
    /// A quiet synthesizer that will hold `level` once an effect fires.
    pub fn new(level: u16) -> (r: FlatToneSynth)
        ensures
            r.quiet(),
    {
        FlatToneSynth { active: false, level }
    }

    /// A synthesizer already holding its level.
    pub fn sounding(level: u16) -> (r: FlatToneSynth)
        ensures
            !r.quiet(),
    {
        FlatToneSynth { active: true, level }
    }
}

impl EffectSynth for FlatToneSynth {
    closed spec fn quiet(&self) -> bool {
        !self.active
    }

    fn create_samples(&mut self) {
    }

    fn play_sfx(&mut self, _id: u8) {
        self.active = true;
    }

    fn mix(&mut self, buf: &mut Vec<u16>, _rate: usize) {
        if self.active {
            let n = buf.len();
            let mut i: usize = 0;
            while i < n
                invariant
                    i <= n,
                    buf@.len() == n,
                decreases n - i,
            {
                let value = self.level;
                buf[i] = value;
                i += 1;
            }
        }
    }
}

} // verus!
