//! Song selection of the file-backed player.
//!
//! The player holds a list of opened songs, with a pseudo-entry "Stop" in
//! front, and the index of the selected one. Selecting an entry tells the
//! caller whether to stop playback, start another song, or leave things be;
//! the caller decodes and plays the file.
use vstd::prelude::*;

verus! {

/// What the caller has to do with the audio sink after a selection.
#[derive(Debug)]
pub enum SongAction {
    /// Nothing changes.
    Keep,
    /// Clear the sink: playback stops.
    StopPlayback,
    /// Clear the sink, then decode the song at `path` and play it.
    Play { path: String },
}

/// Index selected before anything was chosen.
pub const NO_SELECTION: usize = usize::MAX;

/// The song list of the file-backed player.
pub struct FileAudioManager {
    opened_songs: Vec<String>,
    selected_song_idx: usize,
}

impl FileAudioManager {
    /// The entries of the list, "Stop" first once songs were opened.
    pub closed spec fn spec_entries(&self) -> Seq<String> {
        self.opened_songs@
    }

    pub closed spec fn spec_selected(&self) -> usize {
        self.selected_song_idx
    }

    /// An empty list with nothing selected.
    pub fn new() -> (r: Self)
        ensures
            r.spec_entries().len() == 0,
            r.spec_selected() == NO_SELECTION,
    {
        FileAudioManager { opened_songs: Vec::new(), selected_song_idx: NO_SELECTION }
    }

    /// Replaces the list by "Stop" followed by `opened_songs`.
    pub fn update_open_songs(&mut self, opened_songs: Vec<String>)
        ensures
            final(self).spec_entries().len() == opened_songs@.len() + 1,
            final(self).spec_entries()[0]@ == "Stop"@,
            forall|i: int|
                0 <= i < opened_songs@.len() ==> #[trigger] final(self).spec_entries()[i + 1]
                    == opened_songs@[i],
            final(self).spec_selected() == old(self).spec_selected(),
    {
        let mut songs = opened_songs;
        songs.insert(0, String::from_str("Stop"));
        self.opened_songs = songs;
    }

    /// The entries of the list, in order.
    pub fn opened_songs(&self) -> (r: Vec<String>)
        ensures
            r@ == self.spec_entries(),
    {
        let mut r: Vec<String> = Vec::with_capacity(self.opened_songs.len());
        let mut i: usize = 0;
        while i < self.opened_songs.len()
            invariant
                0 <= i <= self.opened_songs@.len(),
                r@ == self.opened_songs@.subrange(0, i as int),
            decreases self.opened_songs@.len() - i,
        {
            r.push(self.opened_songs[i].clone());
            i = i + 1;
        }
        proof {
            assert(r@ =~= self.opened_songs@);
        }
        r
    }

    pub fn selected_song_index(&self) -> (r: usize)
        ensures
            r == self.spec_selected(),
    {
        self.selected_song_idx
    }

    /// Selects entry `index`. Entry 0 stops playback; the entry already
    /// selected changes nothing; any other entry starts that song.
    pub fn change_current_song(&mut self, index: usize) -> (r: SongAction)
        requires
            index == 0 || index == old(self).spec_selected() || index < old(self).spec_entries().len(),
        ensures
            final(self).spec_entries() == old(self).spec_entries(),
            index == 0 ==> final(self).spec_selected() == 0 && r is StopPlayback,
            index != 0 && index == old(self).spec_selected() ==> final(self).spec_selected()
                == index && r is Keep,
            index != 0 && index != old(self).spec_selected() ==> {
                &&& final(self).spec_selected() == index
                &&& r is Play
                &&& r->Play_path == old(self).spec_entries()[index as int]
            },
    {
        if index == 0 {
            self.selected_song_idx = 0;
            return SongAction::StopPlayback;
        }
        if index == self.selected_song_idx {
            return SongAction::Keep;
        }
        self.selected_song_idx = index;
        SongAction::Play { path: self.opened_songs[index].clone() }
    }
}

/// The song list of the simpler player, which plays a song chosen by name.
pub struct AudioManager {
    currently_playing: String,
    selected_songs: Vec<String>,
    selected_song_idx: usize,
}

impl AudioManager {
    pub closed spec fn spec_currently_playing(&self) -> Seq<char> {
        self.currently_playing@
    }

    pub closed spec fn spec_songs(&self) -> Seq<String> {
        self.selected_songs@
    }

    pub closed spec fn spec_selected(&self) -> usize {
        self.selected_song_idx
    }

    /// No songs, nothing playing, the first index selected.
    pub fn new() -> (r: Self)
        ensures
            r.spec_currently_playing() == Seq::<char>::empty(),
            r.spec_songs().len() == 0,
            r.spec_selected() == 0,
    {
        AudioManager { currently_playing: String::new(), selected_songs: Vec::new(), selected_song_idx: 0 }
    }

    /// Replaces the list of songs by those picked.
    pub fn select_songs(&mut self, songs: Vec<String>)
        ensures
            final(self).spec_songs() == songs@,
            final(self).spec_currently_playing() == old(self).spec_currently_playing(),
            final(self).spec_selected() == old(self).spec_selected(),
    {
        self.selected_songs = songs;
    }

    pub fn selected_songs(&self) -> (r: Vec<String>)
        ensures
            r@ == self.spec_songs(),
    {
        let mut r: Vec<String> = Vec::with_capacity(self.selected_songs.len());
        let mut i: usize = 0;
        while i < self.selected_songs.len()
            invariant
                0 <= i <= self.selected_songs@.len(),
                r@ == self.selected_songs@.subrange(0, i as int),
            decreases self.selected_songs@.len() - i,
        {
            r.push(self.selected_songs[i].clone());
            i = i + 1;
        }
        proof {
            assert(r@ =~= self.selected_songs@);
        }
        r
    }

    pub fn selected_song_index(&self) -> (r: usize)
        ensures
            r == self.spec_selected(),
    {
        self.selected_song_idx
    }

    /// Makes `song`, entry `index` of the list, the one playing. The song
    /// already playing changes nothing.
    pub fn update_current_song(&mut self, song: &String, index: usize) -> (r: SongAction)
        requires
            song@ == old(self).spec_currently_playing() || index < old(self).spec_songs().len(),
        ensures
            final(self).spec_songs() == old(self).spec_songs(),
            song@ == old(self).spec_currently_playing() ==> {
                &&& r is Keep
                &&& final(self).spec_currently_playing() == old(self).spec_currently_playing()
                &&& final(self).spec_selected() == old(self).spec_selected()
            },
            song@ != old(self).spec_currently_playing() ==> {
                &&& final(self).spec_currently_playing() == song@
                &&& final(self).spec_selected() == index
                &&& r is Play
                &&& r->Play_path == old(self).spec_songs()[index as int]
            },
    {
        if *song == self.currently_playing {
            return SongAction::Keep;
        }
        self.currently_playing = song.clone();
        self.selected_song_idx = index;
        SongAction::Play { path: self.selected_songs[index].clone() }
    }
}

} // verus!
